use routing_core::Path;
use routing_core::PathError;

#[test]
fn literal_pattern_matches_itself_with_no_captures() {
    let p = Path::new("/status/health").unwrap();
    let caps = p.matches("/status/health").unwrap();
    assert!(caps.is_empty());
    assert_eq!(caps.len(), 0);
}

#[test]
fn literal_pattern_rejects_other_paths() {
    let p = Path::new("/status/health").unwrap();
    assert!(p.matches("/status/ill").is_none());
    assert!(p.matches("/status").is_none());
    assert!(p.matches("/status/health/deep").is_none());
    assert!(p.matches("/Status/health").is_none());
}

#[test]
fn capture_pattern_extracts_segment() {
    let p = Path::new("/users/:id").unwrap();
    let caps = p.matches("/users/42").unwrap();
    assert_eq!(caps.len(), 1);
    assert_eq!(caps.get("id").unwrap().as_str(), "42");
}

#[test]
fn capture_pattern_rejects_wrong_segment_count() {
    let p = Path::new("/users/:id").unwrap();
    assert!(p.matches("/users").is_none());
    assert!(p.matches("/users/42/extra").is_none());
}

#[test]
fn several_captures_bind_in_order() {
    let p = Path::new("/users/:user/posts/:post").unwrap();
    let caps = p.matches("/users/alice/posts/9").unwrap();
    assert_eq!(caps.len(), 2);
    assert_eq!(caps.get("user").unwrap().as_str(), "alice");
    assert_eq!(caps.get("post").unwrap().as_str(), "9");
    assert!(caps.get("missing").is_none());
}

#[test]
fn duplicate_capture_names_fail_compilation() {
    assert_eq!(Path::new("/a/:x/:x").unwrap_err(), PathError::DuplicateCaptureName);
    assert_eq!(Path::new("/:x/b/:x").unwrap_err(), PathError::DuplicateCaptureName);
}

#[test]
fn distinct_capture_names_compile() {
    assert!(Path::new("/:x/:y").is_ok());
    assert!(Path::new("/a/:x/b/:y").is_ok());
}

#[test]
fn capture_value_is_raw_segment_text() {
    let p = Path::new("/files/:name").unwrap();
    let caps = p.matches("/files/a%20b").unwrap();
    assert_eq!(caps.get("name").unwrap().as_str(), "a%20b");
}

#[test]
fn trailing_and_repeated_slashes_are_insignificant() {
    let p = Path::new("/users/:id").unwrap();
    assert_eq!(p.matches("/users/42/").unwrap().get("id").unwrap().as_str(), "42");
    assert_eq!(p.matches("//users//42").unwrap().get("id").unwrap().as_str(), "42");
    let q = Path::new("/users/:id/").unwrap();
    assert_eq!(q.matches("/users/42").unwrap().get("id").unwrap().as_str(), "42");
}

#[test]
fn empty_pattern_matches_only_the_empty_path() {
    let p = Path::new("").unwrap();
    assert!(p.matches("").is_some());
    assert!(p.matches("/").is_none());
    assert!(p.matches("/a").is_none());
}

#[test]
fn root_pattern_matches_slash() {
    let p = Path::new("/").unwrap();
    assert!(p.matches("/").is_some());
    assert!(p.matches("").is_none());
    assert!(p.matches("/a").is_none());
}
