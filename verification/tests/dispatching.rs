use routing_core::Method;
use routing_core::Outcome;
use routing_core::Path;
use routing_core::Route;
use routing_core::RouteBuilderImpls;
use routing_core::RouteHelpers;
use routing_core::RouteTable;
use routing_core::RouteWithCaptures;
use routing_core::SelectedHandler;

fn single_ping_table() -> RouteTable<u32, u32> {
    let mut table: RouteTable<u32, u32> = RouteTable::new();
    table.add(Route::get("/ping").unwrap().using(1));
    table
}

#[test]
fn matching_method_and_path_is_matched() {
    let table = single_ping_table();
    match table.dispatch(Method::Get, "/ping") {
        Outcome::Matched(SelectedHandler::Plain(h), caps) => {
            assert_eq!(h, 1);
            assert!(caps.is_empty());
        },
        _ => panic!("expected a match"),
    }
}

#[test]
fn wrong_method_on_known_path_is_classified() {
    let table = single_ping_table();
    assert!(matches!(table.dispatch(Method::Post, "/ping"), Outcome::PathMatchedWrongMethod));
}

#[test]
fn unknown_path_is_classified() {
    let table = single_ping_table();
    assert!(matches!(table.dispatch(Method::Get, "/pong"), Outcome::NoPathMatch));
}

#[test]
fn first_registered_route_wins() {
    let mut table: RouteTable<u32, u32> = RouteTable::new();
    table.add(Route::get("/a").unwrap().using(1));
    table.add(Route::get("/a").unwrap().using(2));
    for _ in 0..3 {
        match table.dispatch(Method::Get, "/a") {
            Outcome::Matched(SelectedHandler::Plain(h), _) => assert_eq!(h, 1),
            _ => panic!("expected a match"),
        }
    }
}

#[test]
fn dispatch_repeats_identically_and_leaves_the_table_unchanged() {
    let mut table: RouteTable<u32, u32> = RouteTable::new();
    table.add(Route::get("/a").unwrap().using(1));
    table.add_with_captures(RouteWithCaptures::post("/b/:k").unwrap().using(9));
    assert_eq!(table.len(), 2);
    for _ in 0..5 {
        assert!(matches!(table.dispatch(Method::Get, "/a"), Outcome::Matched(..)));
        assert!(matches!(table.dispatch(Method::Put, "/a"), Outcome::PathMatchedWrongMethod));
        assert!(matches!(table.dispatch(Method::Get, "/c"), Outcome::NoPathMatch));
        assert_eq!(table.len(), 2);
    }
}

#[test]
fn capture_aware_route_hands_captures_to_its_handler() {
    let mut table: RouteTable<u32, u32> = RouteTable::new();
    table.add_with_captures(RouteWithCaptures::get("/users/:id").unwrap().using(7));
    match table.dispatch(Method::Get, "/users/42") {
        Outcome::Matched(SelectedHandler::WithCaptures(c), caps) => {
            assert_eq!(c, 7);
            assert_eq!(caps.get("id").unwrap().as_str(), "42");
        },
        _ => panic!("expected a capture-aware match"),
    }
}

#[test]
fn earlier_capture_route_shadows_later_literal_route() {
    let mut table: RouteTable<u32, u32> = RouteTable::new();
    table.add_with_captures(RouteWithCaptures::get("/users/:id").unwrap().using(7));
    table.add(Route::get("/users/me").unwrap().using(1));
    match table.dispatch(Method::Get, "/users/me") {
        Outcome::Matched(SelectedHandler::WithCaptures(c), caps) => {
            assert_eq!(c, 7);
            assert_eq!(caps.get("id").unwrap().as_str(), "me");
        },
        _ => panic!("expected the earlier registration to win"),
    }
}

#[test]
fn methods_are_distinguished_per_route() {
    let mut table: RouteTable<u32, u32> = RouteTable::new();
    table.add(Route::get("/x").unwrap().using(1));
    table.add(Route::post("/x").unwrap().using(2));
    match table.dispatch(Method::Post, "/x") {
        Outcome::Matched(SelectedHandler::Plain(h), _) => assert_eq!(h, 2),
        _ => panic!("expected a match"),
    }
    match table.dispatch(Method::Get, "/x") {
        Outcome::Matched(SelectedHandler::Plain(h), _) => assert_eq!(h, 1),
        _ => panic!("expected a match"),
    }
}

#[test]
fn every_verb_factory_declares_its_verb() {
    let mut table: RouteTable<u32, u32> = RouteTable::new();
    table.add(Route::options("/v").unwrap().using(1));
    table.add(Route::get("/v").unwrap().using(2));
    table.add(Route::post("/v").unwrap().using(3));
    table.add(Route::put("/v").unwrap().using(4));
    table.add(Route::delete("/v").unwrap().using(5));
    table.add(Route::head("/v").unwrap().using(6));
    table.add(Route::trace("/v").unwrap().using(7));
    table.add(Route::connect("/v").unwrap().using(8));
    table.add(Route::patch("/v").unwrap().using(9));
    let verbs = [
        (Method::Options, 1),
        (Method::Get, 2),
        (Method::Post, 3),
        (Method::Put, 4),
        (Method::Delete, 5),
        (Method::Head, 6),
        (Method::Trace, 7),
        (Method::Connect, 8),
        (Method::Patch, 9),
    ];
    for (verb, expected) in verbs {
        match table.dispatch(verb, "/v") {
            Outcome::Matched(SelectedHandler::Plain(h), _) => assert_eq!(h, expected),
            _ => panic!("expected a match"),
        }
    }
}

#[test]
fn duplicate_capture_name_never_produces_a_route() {
    assert!(Route::<u32>::get("/a/:x/:x").is_err());
    assert!(RouteWithCaptures::<u32>::get("/a/:x/:x").is_err());
}

#[test]
fn unreplaced_default_handler_is_selected_as_not_implemented() {
    let mut table: RouteTable<u32, u32> = RouteTable::new();
    table.add(Route { method: Method::Get, path: Path::new("/todo").unwrap(), handler: None });
    assert!(matches!(
        table.dispatch(Method::Get, "/todo"),
        Outcome::Matched(SelectedHandler::NotImplemented, _)
    ));
}

#[test]
fn empty_table_never_matches() {
    let table: RouteTable<u32, u32> = RouteTable::new();
    assert_eq!(table.len(), 0);
    assert!(matches!(table.dispatch(Method::Get, "/"), Outcome::NoPathMatch));
    assert!(matches!(table.dispatch(Method::Get, ""), Outcome::NoPathMatch));
}
