use vstd::prelude::*;

use crate::inbox::Inbox;
use crate::message::{AppMessage, MsgModel};
use crate::router::{RenderPlan, PlanModel, Router, RouterModel, spec_navigate, spec_plan, spec_tick};
use crate::routes::{router, spec_default_router};
use crate::shared_state::SharedState;
use crate::sidebar::SideBar;

verus! {

/// Viewports narrower than this collapse the sidebar behind a menu
/// button.
pub const SIDEBAR_COLLAPSE_WIDTH: u32 = 800;

/// What one frame decided to show: whether the sidebar is visible,
/// whether the router's content area is shown beside or instead of it,
/// and what that area should draw.
pub struct FramePlan {
    pub sidebar_visible: bool,
    pub show_router_content: bool,
    pub render: Option<RenderPlan>,
}

/// The mathematical value of a `FramePlan`.
#[verifier::ext_equal]
pub struct FramePlanModel {
    pub sidebar_visible: bool,
    pub show_router_content: bool,
    pub render: Option<PlanModel>,
}

impl View for FramePlan {
    type V = FramePlanModel;

    open spec fn view(&self) -> FramePlanModel {
        FramePlanModel {
            sidebar_visible: self.sidebar_visible,
            show_router_content: self.show_router_content,
            render: match self.render {
                Some(p) => Some(p@),
                None => None,
            },
        }
    }
}

/// The application loop's state: the sole owner of the shared state, the
/// inbox and the router.
pub struct App {
    pub sidebar_expanded: bool,
    pub shared_state: SharedState,
    pub router: Router,
}

/// The mathematical value of an `App`.
#[verifier::ext_equal]
pub struct AppModel {
    pub sidebar_expanded: bool,
    pub inbox: Seq<MsgModel>,
    pub active_route: Seq<char>,
    pub router: RouterModel,
}

impl View for App {
    type V = AppModel;

    open spec fn view(&self) -> AppModel {
        AppModel {
            sidebar_expanded: self.sidebar_expanded,
            inbox: self.shared_state.tx@,
            active_route: self.shared_state.active_route@,
            router: self.router@,
        }
    }
}

/// Applying a batch of drained messages in order: each Navigate message is
/// one navigation; a failed navigation changes nothing and is ignored.
pub open spec fn spec_apply_all(
    r: RouterModel,
    active_route: Seq<char>,
    msgs: Seq<MsgModel>,
    now_ms: u64,
) -> (RouterModel, Seq<char>)
    decreases msgs.len(),
{
    if msgs.len() == 0 {
        (r, active_route)
    } else {
        let step = match msgs[0] {
            MsgModel::Navigate(p) => spec_navigate(r, active_route, p, now_ms),
        };
        spec_apply_all(step.0, step.1, msgs.drop_first(), now_ms)
    }
}

/// One frame of the application loop: drain the inbox and apply each
/// navigation; decide the layout from the viewport width; let the sidebar
/// turn a click into an outbound message; apply the menu toggle; and,
/// where the content area is shown, render the active route.
pub open spec fn spec_update(
    a: AppModel,
    viewport_width: u32,
    now_ms: u64,
    clicked: Option<(usize, usize)>,
    menu_clicked: bool,
) -> (AppModel, FramePlanModel) {
    let applied = spec_apply_all(a.router, a.active_route, a.inbox, now_ms);
    let collapsible = viewport_width < SIDEBAR_COLLAPSE_WIDTH;
    let expanded = !collapsible || a.sidebar_expanded;
    let cats = applied.0.examples;
    let handled = expanded && match clicked {
        Some(idx) => idx.0 < cats.len() && idx.1 < cats[idx.0 as int].examples.len(),
        None => false,
    };
    let outbox = if handled {
        match clicked {
            Some(idx) => seq![
                MsgModel::Navigate(
                    "/example/"@ + cats[idx.0 as int].examples[idx.1 as int].slug,
                ),
            ],
            None => Seq::empty(),
        }
    } else {
        Seq::empty()
    };
    let expanded_after_click = if handled {
        true
    } else {
        a.sidebar_expanded
    };
    let expanded_after_menu = if collapsible && menu_clicked {
        !expanded_after_click
    } else {
        expanded_after_click
    };
    let show_content = !(collapsible && expanded);
    let router_after = if show_content {
        spec_tick(applied.0, now_ms)
    } else {
        applied.0
    };
    let render = if show_content {
        spec_plan(router_after, now_ms)
    } else {
        None
    };
    (
        AppModel {
            sidebar_expanded: expanded_after_menu,
            inbox: outbox,
            active_route: applied.1,
            router: router_after,
        },
        FramePlanModel {
            sidebar_visible: expanded,
            show_router_content: show_content,
            render,
        },
    )
}

impl App {
    /// Start the application: an empty inbox, a fresh shared state, and
    /// the default router with its default path already resolved.
    pub fn new() -> (app: App)
        ensures
            ({
                let step = spec_navigate(spec_default_router(), "/example"@, "/"@, 0);
                &&& app@ == (AppModel {
                    sidebar_expanded: false,
                    inbox: Seq::empty(),
                    active_route: step.1,
                    router: step.0,
                })
            }),
    {
        let inbox = Inbox::new();
        let mut state = SharedState::new(inbox);
        let r = router(&mut state);
        let app = App { sidebar_expanded: false, shared_state: state, router: r };
        proof {
            let step = spec_navigate(spec_default_router(), "/example"@, "/"@, 0);
            assert(app@ =~~= (AppModel {
                sidebar_expanded: false,
                inbox: Seq::empty(),
                active_route: step.1,
                router: step.0,
            }));
        }
        app
    }

    /// Run one frame, on the UI thread: drain and apply pending messages,
    /// lay the frame out, handle the reported clicks, and say what to
    /// draw.
    pub fn update(
        &mut self,
        viewport_width: u32,
        now_ms: u64,
        clicked: Option<(usize, usize)>,
        menu_clicked: bool,
    ) -> (plan: FramePlan)
        ensures
            ({
                let step = spec_update(old(self)@, viewport_width, now_ms, clicked, menu_clicked);
                &&& final(self)@ == step.0
                &&& plan@ == step.1
            }),
    {
        let ghost a0 = self@;
        let msgs = self.shared_state.tx.drain();
        let ghost mv = msgs@.map_values(|m: AppMessage| m@);
        let n = msgs.len();
        let mut i: usize = 0;
        proof {
            assert(mv.skip(0) =~= mv);
        }
        while i < n
            invariant
                n == msgs@.len(),
                mv == msgs@.map_values(|m: AppMessage| m@),
                i <= n,
                self.sidebar_expanded == a0.sidebar_expanded,
                self.shared_state.tx@ == Seq::<MsgModel>::empty(),
                spec_apply_all(a0.router, a0.active_route, mv, now_ms) == spec_apply_all(
                    self.router@,
                    self.shared_state.active_route@,
                    mv.skip(i as int),
                    now_ms,
                ),
            decreases n - i,
        {
            proof {
                assert(mv.skip(i as int)[0] == mv[i as int]);
                assert(mv.skip(i as int).drop_first() =~= mv.skip(i + 1));
            }
            match &msgs[i] {
                AppMessage::Navigate(p) => {
                    let _ = self.router.navigate(&mut self.shared_state, p.as_str(), now_ms);
                },
            }
            i += 1;
        }
        proof {
            assert(mv.skip(n as int) =~= Seq::<MsgModel>::empty());
        }
        let collapsible = viewport_width < SIDEBAR_COLLAPSE_WIDTH;
        let is_expanded = !collapsible || self.sidebar_expanded;
        let mut handled = false;
        if is_expanded {
            let cats = self.router.examples();
            handled = SideBar::ui(&mut self.shared_state, cats, clicked);
            if handled {
                self.sidebar_expanded = true;
            }
        }
        if collapsible && menu_clicked {
            self.sidebar_expanded = !self.sidebar_expanded;
        }
        let show_content = !(collapsible && is_expanded);
        let render = if show_content {
            self.router.ui(now_ms)
        } else {
            None
        };
        let plan = FramePlan {
            sidebar_visible: is_expanded,
            show_router_content: show_content,
            render,
        };
        proof {
            let step = spec_update(a0, viewport_width, now_ms, clicked, menu_clicked);
            assert(self@.inbox =~= step.0.inbox);
            assert(self@ =~~= step.0);
            assert(plan@ =~~= step.1);
        }
        plan
    }
}

} // verus!
