use routing_core::handlers::default_404_handler;
use routing_core::handlers::default_404_handler_captures;
use routing_core::handlers::fallback_response;
use routing_core::handlers::internal_server_error_handler;
use routing_core::handlers::internal_server_error_handler_captures;
use routing_core::handlers::method_not_supported_handler;
use routing_core::handlers::method_not_supported_handler_captures;
use routing_core::handlers::not_implemented_handler;
use routing_core::handlers::not_implemented_handler_captures;
use routing_core::HttpResponse;
use routing_core::Method;
use routing_core::Outcome;
use routing_core::Path;
use routing_core::Route;
use routing_core::RouteTable;

fn check_plain(r: &HttpResponse, status: u16, body: &str) {
    assert_eq!(r.status, status);
    assert_eq!(r.body.as_str(), body);
    assert_eq!(r.content_type.as_str(), "text/plain");
    assert_eq!(r.content_length, body.len());
}

#[test]
fn not_found_fallback() {
    check_plain(&default_404_handler(), 404, "page not found");
}

#[test]
fn method_not_allowed_fallback() {
    check_plain(&method_not_supported_handler(), 405, "method not supported");
}

#[test]
fn server_error_fallback() {
    check_plain(&internal_server_error_handler(), 500, "internal server error");
}

#[test]
fn not_implemented_fallback() {
    check_plain(&not_implemented_handler(), 501, "not implemented");
}

#[test]
fn capture_aware_fallbacks_ignore_their_captures() {
    let p = Path::new("/users/:id").unwrap();
    check_plain(&default_404_handler_captures(p.matches("/users/1").unwrap()), 404, "page not found");
    check_plain(
        &method_not_supported_handler_captures(p.matches("/users/2").unwrap()),
        405,
        "method not supported",
    );
    check_plain(
        &internal_server_error_handler_captures(p.matches("/users/3").unwrap()),
        500,
        "internal server error",
    );
    check_plain(
        &not_implemented_handler_captures(p.matches("/users/4").unwrap()),
        501,
        "not implemented",
    );
}

#[test]
fn no_path_match_maps_to_404() {
    let outcome: Outcome<u32, u32> = Outcome::NoPathMatch;
    check_plain(&fallback_response(&outcome).unwrap(), 404, "page not found");
}

#[test]
fn wrong_method_maps_to_405() {
    let outcome: Outcome<u32, u32> = Outcome::PathMatchedWrongMethod;
    check_plain(&fallback_response(&outcome).unwrap(), 405, "method not supported");
}

#[test]
fn unreplaced_default_maps_to_501() {
    let mut table: RouteTable<u32, u32> = RouteTable::new();
    table.add(Route { method: Method::Get, path: Path::new("/todo").unwrap(), handler: None });
    let outcome = table.dispatch(Method::Get, "/todo");
    check_plain(&fallback_response(&outcome).unwrap(), 501, "not implemented");
}

#[test]
fn real_handler_needs_no_fallback() {
    let mut table: RouteTable<u32, u32> = RouteTable::new();
    table.add(Route { method: Method::Get, path: Path::new("/ok").unwrap(), handler: Some(1) });
    let outcome = table.dispatch(Method::Get, "/ok");
    assert!(fallback_response(&outcome).is_none());
}
