use mm_frontend::app::App;
use mm_frontend::example::{ContentKind, examples};
use mm_frontend::inbox::Inbox;
use mm_frontend::route::match_pattern;
use mm_frontend::router::{NavigationError, RouteTarget, Router};
use mm_frontend::routes::router;
use mm_frontend::shared_state::SharedState;

fn fresh_state() -> SharedState {
    SharedState::new(Inbox::new())
}

fn bare_router() -> Router {
    Router::new(examples(), 8, 300)
}

#[test]
fn static_route_roundtrip() {
    let mut r = bare_router();
    r.route("/about".to_string(), RouteTarget::Content(ContentKind::Chat));
    let mut state = fresh_state();
    let res = r.navigate(&mut state, "/about", 0);
    assert!(res.is_ok());
    assert_eq!(state.active_route.as_str(), "/about");
}

#[test]
fn param_binding_succeeds() {
    let mut r = bare_router();
    r.route("/example/{slug}".to_string(), RouteTarget::Content(ContentKind::Chat));
    let mut state = fresh_state();
    let res = r.navigate(&mut state, "/example/foo", 0);
    assert!(res.is_ok());
    assert_eq!(state.active_route.as_str(), "/example/foo");
    let plan = r.ui(0).expect("content is active");
    let slug = plan.current.params.get("slug").expect("slug is bound");
    assert_eq!(slug.as_str(), "foo");
}

#[test]
fn match_pattern_binds_slug() {
    let params = match_pattern("/example/{slug}", "/example/foo").expect("pattern matches");
    assert_eq!(params.get("slug").expect("slug bound").as_str(), "foo");
    assert_eq!(params.len(), 1);
}

#[test]
fn match_pattern_rejects_static_mismatch() {
    assert!(match_pattern("/example/{slug}", "/other/foo").is_none());
}

#[test]
fn match_pattern_rejects_length_mismatch() {
    assert!(match_pattern("/example/{slug}", "/example/foo/bar").is_none());
    assert!(match_pattern("/example/{slug}", "/example").is_none());
}

#[test]
fn match_pattern_root() {
    let params = match_pattern("/", "/").expect("root matches itself");
    assert_eq!(params.len(), 0);
}

#[test]
fn match_pattern_multiple_params() {
    let params = match_pattern("/a/{x}/c/{y}", "/a/b/c/d").expect("pattern matches");
    assert_eq!(params.get("x").expect("x bound").as_str(), "b");
    assert_eq!(params.get("y").expect("y bound").as_str(), "d");
}

#[test]
fn first_binding_wins_on_duplicate_names() {
    let params = match_pattern("/{a}/{a}", "/x/y").expect("pattern matches");
    assert_eq!(params.get("a").expect("a bound").as_str(), "x");
}

#[test]
fn unregistered_path_returns_no_route() {
    let mut state = fresh_state();
    let mut r = router(&mut state);
    let before = state.active_route.clone();
    let res = r.navigate(&mut state, "/does-not-exist", 0);
    assert_eq!(res, Err(NavigationError::NoRoute));
    assert_eq!(state.active_route, before);
}

#[test]
fn unknown_slug_returns_no_route() {
    let mut state = fresh_state();
    let mut r = router(&mut state);
    let before = state.active_route.clone();
    let res = r.navigate(&mut state, "/example/missing", 0);
    assert_eq!(res, Err(NavigationError::NoRoute));
    assert_eq!(state.active_route, before);
}

#[test]
fn redirect_cycle_returns_redirect_loop() {
    let mut r = bare_router();
    r.route_redirect("/a".to_string(), "/b".to_string());
    r.route_redirect("/b".to_string(), "/a".to_string());
    let mut state = fresh_state();
    let before = state.active_route.clone();
    let res = r.navigate(&mut state, "/a", 0);
    assert_eq!(res, Err(NavigationError::RedirectLoop));
    assert_eq!(state.active_route, before);
    assert!(r.ui(0).is_none());
}

#[test]
fn self_redirect_returns_redirect_loop() {
    let mut r = bare_router();
    r.route_redirect("/x".to_string(), "/x".to_string());
    let mut state = fresh_state();
    let res = r.navigate(&mut state, "/x", 0);
    assert_eq!(res, Err(NavigationError::RedirectLoop));
}

#[test]
fn redirect_chain_within_bound_resolves() {
    let mut r = bare_router();
    r.route_redirect("/a".to_string(), "/b".to_string());
    r.route_redirect("/b".to_string(), "/c".to_string());
    r.route("/c".to_string(), RouteTarget::Content(ContentKind::Chat));
    let mut state = fresh_state();
    let res = r.navigate(&mut state, "/a", 0);
    assert!(res.is_ok());
    assert_eq!(state.active_route.as_str(), "/c");
}

#[test]
fn registration_order_decides_match() {
    let mut r = bare_router();
    r.route("/{x}".to_string(), RouteTarget::Content(ContentKind::Chat));
    r.route_redirect("/late".to_string(), "/elsewhere".to_string());
    let mut state = fresh_state();
    let res = r.navigate(&mut state, "/late", 0);
    assert!(res.is_ok());
    assert_eq!(state.active_route.as_str(), "/late");
}

#[test]
fn default_root_redirect_reaches_chat() {
    let mut state = fresh_state();
    let mut r = router(&mut state);
    assert_eq!(state.active_route.as_str(), "/example/chat");
    let res = r.navigate(&mut state, "/", 0);
    assert!(res.is_ok());
    assert_eq!(state.active_route.as_str(), "/example/chat");
    let plan = r.ui(0).expect("content is active");
    assert_eq!(plan.current.kind, ContentKind::Chat);
    assert_eq!(plan.current.params.get("slug").expect("slug bound").as_str(), "chat");
}

#[test]
fn app_starts_on_chat_route() {
    let app = App::new();
    assert_eq!(app.shared_state.active_route.as_str(), "/example/chat");
}
