use mm_frontend::app::App;
use mm_frontend::example::{ContentKind, examples};
use mm_frontend::inbox::Inbox;
use mm_frontend::message::AppMessage;
use mm_frontend::router::{RouteTarget, Router};
use mm_frontend::shared_state::SharedState;
use mm_frontend::sidebar::SideBar;

fn fresh_state() -> SharedState {
    SharedState::new(Inbox::new())
}

#[test]
fn inbox_drains_in_send_order() {
    let mut inbox = Inbox::new();
    inbox.send(AppMessage::Navigate("/a".to_string()));
    inbox.send(AppMessage::Navigate("/b".to_string()));
    inbox.send(AppMessage::Navigate("/c".to_string()));
    assert_eq!(inbox.len(), 3);
    let msgs = inbox.drain();
    let paths: Vec<String> = msgs
        .into_iter()
        .map(|m| match m {
            AppMessage::Navigate(p) => p,
        })
        .collect();
    assert_eq!(paths, vec!["/a".to_string(), "/b".to_string(), "/c".to_string()]);
    let again = inbox.drain();
    assert!(again.is_empty());
    assert_eq!(inbox.len(), 0);
}

#[test]
fn ui_is_idempotent_within_a_frame() {
    let mut r = Router::new(examples(), 8, 300);
    r.route("/example/{slug}".to_string(), RouteTarget::Content(ContentKind::Chat));
    let mut state = fresh_state();
    r.navigate(&mut state, "/example/foo", 0).expect("navigation succeeds");
    let route_before = state.active_route.clone();
    let first = r.ui(100).expect("content is active");
    let second = r.ui(100).expect("content is active");
    assert_eq!(first.current.kind, second.current.kind);
    assert_eq!(
        first.current.params.get("slug").expect("bound").as_str(),
        second.current.params.get("slug").expect("bound").as_str(),
    );
    assert_eq!(state.active_route, route_before);
}

#[test]
fn transition_blends_then_ends() {
    let mut r = Router::new(examples(), 8, 300);
    r.route("/a".to_string(), RouteTarget::Content(ContentKind::Chat));
    r.route("/b".to_string(), RouteTarget::Content(ContentKind::Chat));
    let mut state = fresh_state();
    r.navigate(&mut state, "/a", 0).expect("first navigation");
    let plan = r.ui(0).expect("content");
    assert!(plan.outgoing.is_none());
    r.navigate(&mut state, "/b", 1000).expect("second navigation");
    let plan = r.ui(1100).expect("content");
    let outgoing = plan.outgoing.expect("transition in flight");
    assert_eq!(outgoing.elapsed_ms, 100);
    assert_eq!(outgoing.duration_ms, 300);
    let plan = r.ui(1400).expect("content");
    assert!(plan.outgoing.is_none());
}

#[test]
fn sidebar_click_sends_navigate_message() {
    let mut state = fresh_state();
    let registry = examples();
    let handled = SideBar::ui(&mut state, &registry, Some((0, 0)));
    assert!(handled);
    let msgs = state.tx.drain();
    assert_eq!(msgs.len(), 1);
    match &msgs[0] {
        AppMessage::Navigate(p) => assert_eq!(p.as_str(), "/example/chat"),
    }
}

#[test]
fn sidebar_ignores_out_of_range_click() {
    let mut state = fresh_state();
    let registry = examples();
    assert!(!SideBar::ui(&mut state, &registry, Some((0, 5))));
    assert!(!SideBar::ui(&mut state, &registry, Some((3, 0))));
    assert!(!SideBar::ui(&mut state, &registry, None));
    assert_eq!(state.tx.len(), 0);
}

#[test]
fn sidebar_highlights_active_entry() {
    let mut state = fresh_state();
    state.active_route = "/example/chat".to_string();
    assert!(SideBar::is_selected(&state, "chat"));
    assert!(!SideBar::is_selected(&state, "other"));
}

#[test]
fn click_navigates_on_next_frame() {
    let mut app = App::new();
    let plan = app.update(1200, 0, Some((0, 0)), false);
    assert!(plan.sidebar_visible);
    assert!(plan.show_router_content);
    assert_eq!(app.shared_state.tx.len(), 1);
    let plan = app.update(1200, 16, None, false);
    assert_eq!(app.shared_state.tx.len(), 0);
    assert_eq!(app.shared_state.active_route.as_str(), "/example/chat");
    let render = plan.render.expect("content shown");
    assert_eq!(render.current.kind, ContentKind::Chat);
}

#[test]
fn narrow_viewport_collapses_sidebar() {
    let mut app = App::new();
    let plan = app.update(400, 0, None, false);
    assert!(!plan.sidebar_visible);
    assert!(plan.show_router_content);
    let plan = app.update(400, 16, None, true);
    assert!(app.sidebar_expanded);
    assert!(!plan.sidebar_visible);
    let plan = app.update(400, 32, None, false);
    assert!(plan.sidebar_visible);
    assert!(!plan.show_router_content);
    assert!(plan.render.is_none());
}

#[test]
fn wide_viewport_always_shows_both() {
    let mut app = App::new();
    let plan = app.update(1000, 0, None, false);
    assert!(plan.sidebar_visible);
    assert!(plan.show_router_content);
    assert!(plan.render.is_some());
}
