use sep2_client::pubsub::{HttpMethod, RouteDecision, Router, SEPResponse};

#[test]
fn empty_router_finds_nothing() {
    let r = Router::new();
    assert_eq!(r.resolve("/dr"), None);
    assert_eq!(
        r.router(HttpMethod::Post, "/dr"),
        RouteDecision::Respond(SEPResponse::NotFound)
    );
}

#[test]
fn method_not_allowed_names_post() {
    let mut r = Router::new();
    let id = r.register("/dr".to_string());
    for m in [
        HttpMethod::Get,
        HttpMethod::Head,
        HttpMethod::Put,
        HttpMethod::Delete,
        HttpMethod::Other,
    ] {
        assert_eq!(
            r.router(m, "/dr"),
            RouteDecision::Respond(SEPResponse::MethodNotAllowed("POST"))
        );
    }
    assert_eq!(r.router(HttpMethod::Post, "/dr"), RouteDecision::Invoke(id));
}

#[test]
fn unregistered_path_is_not_found_for_every_method() {
    let mut r = Router::new();
    r.register("/dr".to_string());
    for m in [
        HttpMethod::Get,
        HttpMethod::Head,
        HttpMethod::Post,
        HttpMethod::Put,
        HttpMethod::Delete,
        HttpMethod::Other,
    ] {
        assert_eq!(
            r.router(m, "/unknown"),
            RouteDecision::Respond(SEPResponse::NotFound)
        );
    }
}

#[test]
fn paths_match_exactly() {
    let mut r = Router::new();
    let id = r.register("/dr".to_string());
    assert_eq!(r.resolve("/dr"), Some(id));
    assert_eq!(r.resolve("/dr/"), None);
    assert_eq!(r.resolve("/d"), None);
    assert_eq!(r.resolve(""), None);
}

#[test]
fn reregistration_replaces_the_binding() {
    let mut r = Router::new();
    let first = r.register("/dr".to_string());
    let second = r.register("/dr".to_string());
    assert_ne!(first, second);
    assert_eq!(r.resolve("/dr"), Some(second));
    assert_eq!(
        r.router(HttpMethod::Post, "/dr"),
        RouteDecision::Invoke(second)
    );
}

#[test]
fn distinct_paths_keep_distinct_slots() {
    let mut r = Router::new();
    let a = r.register("/dr".to_string());
    let b = r.register("/mup".to_string());
    assert_eq!(r.resolve("/dr"), Some(a));
    assert_eq!(r.resolve("/mup"), Some(b));
}
