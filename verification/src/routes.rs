use vstd::prelude::*;

use crate::example::{examples, spec_default_registry};
use crate::router::{
    EntryModel, RouteTarget, Router, RouterModel, TargetModel, spec_navigate,
};
use crate::shared_state::SharedState;
use crate::sidebar::example_route_path;

verus! {

/// How long a transition blends, in frame-clock milliseconds.
pub const DEFAULT_TRANSITION_MS: u64 = 300;

/// How many redirects a single navigation may follow before it is
/// rejected as a loop.
pub const REDIRECT_LIMIT: usize = 8;

/// The content factory bound to the example pattern: serve the example
/// whose slug the route bound.
pub fn example_route() -> (t: RouteTarget)
    ensures
        t@ == TargetModel::Examples,
{
    RouteTarget::Examples
}

/// The router this application starts from: the example pattern, and the
/// root redirected to the first registered example's route.
pub open spec fn spec_default_router() -> RouterModel {
    RouterModel {
        routes: seq![
            EntryModel { pattern: "/example/{slug}"@, target: TargetModel::Examples },
            EntryModel { pattern: "/"@, target: TargetModel::Redirect("/example/chat"@) },
        ],
        examples: spec_default_registry(),
        redirect_limit: REDIRECT_LIMIT as nat,
        default_duration_ms: DEFAULT_TRANSITION_MS,
        active: None,
        transition: None,
    }
}

/// Build the application's router over the default registry and resolve
/// the default path `/`, as the shell does at startup.
pub fn router(state: &mut SharedState) -> (r: Router)
    ensures
        ({
            let step = spec_navigate(spec_default_router(), old(state).active_route@, "/"@, 0);
            &&& r@ == step.0
            &&& final(state).active_route@ == step.1
            &&& final(state).tx == old(state).tx
        }),
{
    let cats = examples();
    proof {
        assert(cats@.len() == spec_default_registry().len());
        assert(cats@[0]@ == spec_default_registry()[0]);
        assert(cats@[0]@.examples == cats@[0].examples@.map_values(|e: crate::example::Example| e@));
        assert(cats@[0].examples@.len() == 1);
        assert(cats@[0].examples@[0]@ == spec_default_registry()[0].examples[0]);
    }
    let redirect_to = example_route_path(cats[0].examples[0].slug.as_str());
    proof {
        reveal_strlit("/example/");
        reveal_strlit("chat");
        reveal_strlit("/example/chat");
        assert(redirect_to@ =~= "/example/chat"@);
    }
    let mut r = Router::new(cats, REDIRECT_LIMIT, DEFAULT_TRANSITION_MS);
    r.route(String::from_str("/example/{slug}"), example_route());
    r.route_redirect(String::from_str("/"), redirect_to);
    proof {
        assert(r@.routes =~~= spec_default_router().routes);
        assert(r@ =~~= spec_default_router());
    }
    let _ = r.navigate(state, "/", 0);
    r
}

} // verus!
