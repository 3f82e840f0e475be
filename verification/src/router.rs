use vstd::prelude::*;

use crate::example::{
    Category, CategoryModel, ContentKind, find_example, spec_find_example, views_of_categories,
};
use crate::params::{Params, spec_lookup};
use crate::route::{
    lemma_pattern_matches_itself, match_pattern, spec_path_bindings, spec_pattern_matches,
};
use crate::shared_state::SharedState;

verus! {

/// Why a navigation was rejected. Both kinds are reported as values, never
/// as a crash, so the application loop can ignore, log or fall back.
#[derive(Clone, Copy, PartialEq, Eq, Structural, Debug)]
pub enum NavigationError {
    /// The path matched no registration, or no content could be built for
    /// the matched registration.
    NoRoute,
    /// A chain of redirects exceeded the configured bound.
    RedirectLoop,
}

/// What a registration serves.
pub enum RouteTarget {
    /// The example whose slug is bound to the `slug` parameter, looked up
    /// in the example registry.
    Examples,
    /// A fixed content kind.
    Content(ContentKind),
    /// No content: resolve this other path instead.
    Redirect(String),
}

/// One registration: a pattern and what it serves. Registration order is
/// match priority — the first matching pattern wins.
pub struct RouteEntry {
    pub pattern: String,
    pub target: RouteTarget,
}

/// The mathematical value of a `RouteTarget`.
pub enum TargetModel {
    Examples,
    Content(ContentKind),
    Redirect(Seq<char>),
}

/// The mathematical value of a `RouteEntry`.
#[verifier::ext_equal]
pub struct EntryModel {
    pub pattern: Seq<char>,
    pub target: TargetModel,
}

impl View for RouteTarget {
    type V = TargetModel;

    open spec fn view(&self) -> TargetModel {
        match self {
            RouteTarget::Examples => TargetModel::Examples,
            RouteTarget::Content(kind) => TargetModel::Content(*kind),
            RouteTarget::Redirect(to) => TargetModel::Redirect(to@),
        }
    }
}

impl View for RouteEntry {
    type V = EntryModel;

    open spec fn view(&self) -> EntryModel {
        EntryModel { pattern: self.pattern@, target: self.target@ }
    }
}

/// The views of a vector of registrations.
pub open spec fn views_of_entries(routes: Seq<RouteEntry>) -> Seq<EntryModel> {
    routes.map_values(|e: RouteEntry| e@)
}

/// Content the router currently owns: what to render and the parameters
/// bound when its route was entered.
pub struct ActiveContent {
    pub kind: ContentKind,
    pub params: Params,
}

/// The mathematical value of an `ActiveContent`.
#[verifier::ext_equal]
pub struct ContentModel {
    pub kind: ContentKind,
    pub params: Seq<(Seq<char>, Seq<char>)>,
}

impl View for ActiveContent {
    type V = ContentModel;

    open spec fn view(&self) -> ContentModel {
        ContentModel { kind: self.kind, params: self.params@ }
    }
}

/// An in-flight transition: the outgoing content and the clock window over
/// which it blends away.
pub struct TransitionState {
    pub prev: ActiveContent,
    pub start_ms: u64,
    pub duration_ms: u64,
}

/// The mathematical value of a `TransitionState`.
#[verifier::ext_equal]
pub struct TransitionModel {
    pub prev: ContentModel,
    pub start_ms: u64,
    pub duration_ms: u64,
}

/// The mathematical value of a `Router`.
#[verifier::ext_equal]
pub struct RouterModel {
    pub routes: Seq<EntryModel>,
    pub examples: Seq<CategoryModel>,
    pub redirect_limit: nat,
    pub default_duration_ms: u64,
    pub active: Option<ContentModel>,
    pub transition: Option<TransitionModel>,
}

/// Maps path strings to content, tracks the active content and an optional
/// outgoing transition, and applies programmatic navigation.
pub struct Router {
    routes: Vec<RouteEntry>,
    examples: Vec<Category>,
    redirect_limit: usize,
    default_duration_ms: u64,
    active: Option<ActiveContent>,
    transition: Option<TransitionState>,
}

impl View for Router {
    type V = RouterModel;

    closed spec fn view(&self) -> RouterModel {
        RouterModel {
            routes: views_of_entries(self.routes@),
            examples: views_of_categories(self.examples@),
            redirect_limit: self.redirect_limit as nat,
            default_duration_ms: self.default_duration_ms,
            active: match self.active {
                Some(a) => Some(a@),
                None => None,
            },
            transition: match self.transition {
                Some(t) => Some(
                    TransitionModel {
                        prev: t.prev@,
                        start_ms: t.start_ms,
                        duration_ms: t.duration_ms,
                    },
                ),
                None => None,
            },
        }
    }
}

/// The index of the first registration whose pattern accepts the path.
pub open spec fn spec_first_match(routes: Seq<EntryModel>, path: Seq<char>) -> Option<int>
    decreases routes.len(),
{
    if routes.len() == 0 {
        None
    } else if spec_pattern_matches(routes[0].pattern, path) {
        Some(0int)
    } else {
        match spec_first_match(routes.drop_first(), path) {
            Some(j) => Some(j + 1),
            None => None,
        }
    }
}

/// The outcome of resolving a path against the registrations: no match, a
/// redirect chain that exhausted its bound, or arrival at content.
pub enum Resolution {
    NoRoute,
    RedirectLoop,
    Arrived {
        route_idx: int,
        path: Seq<char>,
        params: Seq<(Seq<char>, Seq<char>)>,
        kind: ContentKind,
    },
}

/// Resolve a path: find the first matching registration, follow redirects
/// while the fuel lasts, and build content from the winning registration.
pub open spec fn spec_resolve(
    routes: Seq<EntryModel>,
    cats: Seq<CategoryModel>,
    path: Seq<char>,
    fuel: nat,
) -> Resolution
    decreases fuel,
{
    match spec_first_match(routes, path) {
        None => Resolution::NoRoute,
        Some(i) => {
            let params = spec_path_bindings(routes[i].pattern, path);
            match routes[i].target {
                TargetModel::Redirect(to) => if fuel == 0 {
                    Resolution::RedirectLoop
                } else {
                    spec_resolve(routes, cats, to, (fuel - 1) as nat)
                },
                TargetModel::Content(kind) => Resolution::Arrived {
                    route_idx: i,
                    path,
                    params,
                    kind,
                },
                TargetModel::Examples => match spec_lookup(params, "slug"@) {
                    Some(slug) => match spec_find_example(cats, slug) {
                        Some(kind) => Resolution::Arrived { route_idx: i, path, params, kind },
                        None => Resolution::NoRoute,
                    },
                    None => Resolution::NoRoute,
                },
            }
        },
    }
}

/// What one navigation does to the router and the active route: on arrival
/// the router owns new content, the old content (if any) starts blending
/// out, and the resolved path becomes active; on failure nothing changes.
pub open spec fn spec_navigate(
    r: RouterModel,
    active_route: Seq<char>,
    path: Seq<char>,
    now_ms: u64,
) -> (RouterModel, Seq<char>, Result<(), NavigationError>) {
    match spec_resolve(r.routes, r.examples, path, r.redirect_limit) {
        Resolution::NoRoute => (r, active_route, Err(NavigationError::NoRoute)),
        Resolution::RedirectLoop => (r, active_route, Err(NavigationError::RedirectLoop)),
        Resolution::Arrived { route_idx, path: resolved, params, kind } => (
            RouterModel {
                active: Some(ContentModel { kind, params }),
                transition: match r.active {
                    Some(prev) => Some(
                        TransitionModel {
                            prev,
                            start_ms: now_ms,
                            duration_ms: r.default_duration_ms,
                        },
                    ),
                    None => None,
                },
                ..r
            },
            resolved,
            Ok(()),
        ),
    }
}

fn first_match(routes: &Vec<RouteEntry>, path: &str) -> (r: Option<(usize, Params)>)
    ensures
        match r {
            Some(found) => {
                &&& found.0 < routes@.len()
                &&& spec_first_match(views_of_entries(routes@), path@) == Some(found.0 as int)
                &&& found.1@ == spec_path_bindings(routes@[found.0 as int].pattern@, path@)
            },
            None => spec_first_match(views_of_entries(routes@), path@) is None,
        },
{
    let ghost rv = views_of_entries(routes@);
    let n = routes.len();
    let mut i: usize = 0;
    proof {
        assert(rv.skip(0) =~= rv);
    }
    while i < n
        invariant
            rv == views_of_entries(routes@),
            n == rv.len(),
            i <= n,
            spec_first_match(rv, path@) == match spec_first_match(rv.skip(i as int), path@) {
                Some(j) => Some(j + i),
                None => None,
            },
        decreases n - i,
    {
        proof {
            assert(rv.skip(i as int)[0] == rv[i as int]);
            assert(rv.skip(i as int).drop_first() =~= rv.skip(i + 1));
        }
        let matched = match_pattern(routes[i].pattern.as_str(), path);
        match matched {
            Some(params) => {
                return Some((i, params));
            },
            None => {
            },
        }
        i += 1;
    }
    proof {
        assert(rv.skip(n as int).len() == 0);
    }
    None
}

fn resolve(
    routes: &Vec<RouteEntry>,
    cats: &Vec<Category>,
    path: &str,
    limit: usize,
) -> (r: Result<(usize, Params, ContentKind, String), NavigationError>)
    ensures
        match spec_resolve(
            views_of_entries(routes@),
            views_of_categories(cats@),
            path@,
            limit as nat,
        ) {
            Resolution::NoRoute => r == Err::<(usize, Params, ContentKind, String),
                NavigationError,
            >(NavigationError::NoRoute),
            Resolution::RedirectLoop => r == Err::<(usize, Params, ContentKind, String),
                NavigationError,
            >(NavigationError::RedirectLoop),
            Resolution::Arrived { route_idx, path: resolved, params, kind } => {
                &&& r is Ok
                &&& r.unwrap().0 as int == route_idx
                &&& r.unwrap().1@ == params
                &&& r.unwrap().2 == kind
                &&& r.unwrap().3@ == resolved
            },
        },
{
    let ghost rv = views_of_entries(routes@);
    let ghost cv = views_of_categories(cats@);
    let mut current: String = path.to_owned();
    let mut fuel: usize = limit;
    loop
        invariant
            rv == views_of_entries(routes@),
            cv == views_of_categories(cats@),
            fuel <= limit,
            spec_resolve(rv, cv, path@, limit as nat) == spec_resolve(
                rv,
                cv,
                current@,
                fuel as nat,
            ),
        decreases fuel,
    {
        let found = first_match(routes, current.as_str());
        match found {
            None => {
                return Err(NavigationError::NoRoute);
            },
            Some((i, params)) => {
                match &routes[i].target {
                    RouteTarget::Redirect(to) => {
                        if fuel == 0 {
                            return Err(NavigationError::RedirectLoop);
                        }
                        fuel = fuel - 1;
                        current = to.clone();
                    },
                    RouteTarget::Content(kind) => {
                        return Ok((i, params, *kind, current));
                    },
                    RouteTarget::Examples => {
                        let slug = params.get("slug");
                        match slug {
                            Some(slug) => {
                                let slug = slug.clone();
                                match find_example(cats, &slug) {
                                    Some(kind) => {
                                        return Ok((i, params, kind, current));
                                    },
                                    None => {
                                        return Err(NavigationError::NoRoute);
                                    },
                                }
                            },
                            None => {
                                return Err(NavigationError::NoRoute);
                            },
                        }
                    },
                }
            },
        }
    }
}

impl Router {
    /// An empty router over the given example registry: no registrations,
    /// no active content, redirects bounded by `redirect_limit`, new
    /// transitions taking `default_duration_ms`.
    pub fn new(examples: Vec<Category>, redirect_limit: usize, default_duration_ms: u64) -> (r:
        Router)
        ensures
            r@ == (RouterModel {
                routes: Seq::empty(),
                examples: views_of_categories(examples@),
                redirect_limit: redirect_limit as nat,
                default_duration_ms,
                active: None,
                transition: None,
            }),
    {
        let r = Router {
            routes: Vec::new(),
            examples,
            redirect_limit,
            default_duration_ms,
            active: None,
            transition: None,
        };
        proof {
            assert(r@.routes =~= Seq::<EntryModel>::empty());
            assert(r@ =~~= (RouterModel {
                routes: Seq::empty(),
                examples: r@.examples,
                redirect_limit: redirect_limit as nat,
                default_duration_ms,
                active: None,
                transition: None,
            }));
        }
        r
    }

    /// Register a pattern behind all existing registrations.
    pub fn route(&mut self, pattern: String, target: RouteTarget)
        ensures
            final(self)@ == (RouterModel {
                routes: old(self)@.routes.push(EntryModel { pattern: pattern@, target: target@ }),
                ..old(self)@
            }),
    {
        let ghost entry = EntryModel { pattern: pattern@, target: target@ };
        let ghost before = self@;
        self.routes.push(RouteEntry { pattern, target });
        proof {
            assert(self@.routes =~~= before.routes.push(entry));
            assert(self@ =~~= (RouterModel { routes: before.routes.push(entry), ..before }));
        }
    }

    /// Register a redirect: a path matching `pattern` resolves `to` instead.
    pub fn route_redirect(&mut self, pattern: String, to: String)
        ensures
            final(self)@ == (RouterModel {
                routes: old(self)@.routes.push(
                    EntryModel { pattern: pattern@, target: TargetModel::Redirect(to@) },
                ),
                ..old(self)@
            }),
    {
        self.route(pattern, RouteTarget::Redirect(to));
    }

    /// The example registry the router serves.
    pub fn examples(&self) -> (cats: &Vec<Category>)
        ensures
            views_of_categories(cats@) == self@.examples,
    {
        &self.examples
    }

    /// Navigate to `path`: resolve it through the registrations, replace
    /// the active content, start the configured transition, and make the
    /// resolved path the active route. On failure, report the error and
    /// change nothing.
    pub fn navigate(&mut self, state: &mut SharedState, path: &str, now_ms: u64) -> (r: Result<
        (),
        NavigationError,
    >)
        ensures
            ({
                let step = spec_navigate(
                    old(self)@,
                    old(state).active_route@,
                    path@,
                    now_ms,
                );
                &&& final(self)@ == step.0
                &&& final(state).active_route@ == step.1
                &&& final(state).tx == old(state).tx
                &&& r == step.2
            }),
    {
        let resolved = resolve(&self.routes, &self.examples, path, self.redirect_limit);
        match resolved {
            Err(e) => Err(e),
            Ok((_idx, params, kind, resolved_path)) => {
                state.active_route = resolved_path;
                let prev = self.active.take();
                self.transition = match prev {
                    Some(p) => Some(
                        TransitionState {
                            prev: p,
                            start_ms: now_ms,
                            duration_ms: self.default_duration_ms,
                        },
                    ),
                    None => None,
                };
                self.active = Some(ActiveContent { kind, params });
                proof {
                    let step = spec_navigate(
                        old(self)@,
                        old(state).active_route@,
                        path@,
                        now_ms,
                    );
                    assert(self@ =~~= step.0);
                }
                Ok(())
            },
        }
    }
}

/// Content leaving the screen mid-transition, with how far the blend has
/// come: `elapsed_ms` of `duration_ms` have passed, `elapsed_ms <
/// duration_ms`. The host turns the ratio into whatever visual blend it
/// likes.
pub struct OutgoingContent {
    pub content: ActiveContent,
    pub elapsed_ms: u64,
    pub duration_ms: u64,
}

/// What one frame should draw: the active content and, while a transition
/// is in flight, the outgoing content behind it.
pub struct RenderPlan {
    pub current: ActiveContent,
    pub outgoing: Option<OutgoingContent>,
}

/// The mathematical value of a `RenderPlan`: the content shown and,
/// optionally, the outgoing content with its elapsed and total durations.
#[verifier::ext_equal]
pub struct PlanModel {
    pub current: ContentModel,
    pub outgoing: Option<(ContentModel, u64, u64)>,
}

impl View for RenderPlan {
    type V = PlanModel;

    open spec fn view(&self) -> PlanModel {
        PlanModel {
            current: self.current@,
            outgoing: match self.outgoing {
                Some(o) => Some((o.content@, o.elapsed_ms, o.duration_ms)),
                None => None,
            },
        }
    }
}

/// Frame-clock time elapsed since `start`, zero if the clock reads earlier
/// than `start`.
pub open spec fn spec_elapsed(now_ms: u64, start_ms: u64) -> u64 {
    if now_ms >= start_ms {
        (now_ms - start_ms) as u64
    } else {
        0
    }
}

/// What rendering a frame does to the router: a transition whose window
/// has elapsed is dropped; nothing else moves.
pub open spec fn spec_tick(r: RouterModel, now_ms: u64) -> RouterModel {
    match r.transition {
        Some(t) => if spec_elapsed(now_ms, t.start_ms) >= t.duration_ms {
            RouterModel { transition: None, ..r }
        } else {
            r
        },
        None => r,
    }
}

/// What a frame at the given clock shows: the active content, plus the
/// outgoing content while its transition window is still open.
pub open spec fn spec_plan(r: RouterModel, now_ms: u64) -> Option<PlanModel> {
    match r.active {
        None => None,
        Some(current) => Some(
            PlanModel {
                current,
                outgoing: match r.transition {
                    Some(t) => if spec_elapsed(now_ms, t.start_ms) < t.duration_ms {
                        Some((t.prev, spec_elapsed(now_ms, t.start_ms), t.duration_ms))
                    } else {
                        None
                    },
                    None => None,
                },
            },
        ),
    }
}

impl Router {
    /// Render the current route: report what this frame should draw,
    /// dropping a transition whose window has elapsed. Driven by the frame
    /// clock alone — rendering never changes the active route.
    pub fn ui(&mut self, now_ms: u64) -> (plan: Option<RenderPlan>)
        ensures
            final(self)@ == spec_tick(old(self)@, now_ms),
            match plan {
                Some(p) => spec_plan(final(self)@, now_ms) == Some(p@),
                None => spec_plan(final(self)@, now_ms) is None,
            },
    {
        let done = match &self.transition {
            Some(t) => {
                let elapsed = if now_ms >= t.start_ms {
                    now_ms - t.start_ms
                } else {
                    0
                };
                elapsed >= t.duration_ms
            },
            None => false,
        };
        if done {
            self.transition = None;
        }
        proof {
            assert(self@ =~~= spec_tick(old(self)@, now_ms));
        }
        match &self.active {
            None => None,
            Some(active) => {
                let current = ActiveContent { kind: active.kind, params: active.params.duplicate() };
                let outgoing = match &self.transition {
                    Some(t) => {
                        let elapsed = if now_ms >= t.start_ms {
                            now_ms - t.start_ms
                        } else {
                            0
                        };
                        Some(
                            OutgoingContent {
                                content: ActiveContent {
                                    kind: t.prev.kind,
                                    params: t.prev.params.duplicate(),
                                },
                                elapsed_ms: elapsed,
                                duration_ms: t.duration_ms,
                            },
                        )
                    },
                    None => None,
                };
                let plan = RenderPlan { current, outgoing };
                proof {
                    assert(spec_plan(self@, now_ms) =~~= Some(plan@));
                }
                Some(plan)
            },
        }
    }
}

/// Rendering is idempotent: ticking the clock preserves the active
/// content, ticking twice at one instant equals ticking once, and the
/// frame plan after the second call equals the plan after the first — so
/// two `ui` calls in the same frame, with no navigation between them, show
/// the same route content.
pub proof fn lemma_ui_idempotent(r: RouterModel, now_ms: u64)
    ensures
        spec_tick(r, now_ms).active == r.active,
        spec_tick(spec_tick(r, now_ms), now_ms) == spec_tick(r, now_ms),
        spec_plan(spec_tick(spec_tick(r, now_ms), now_ms), now_ms) == spec_plan(
            spec_tick(r, now_ms),
            now_ms,
        ),
{
}

/// A registered pattern, read as a concrete path, is always found: the
/// first match exists and comes no later than the registration itself.
pub proof fn lemma_registered_path_found(routes: Seq<EntryModel>, p: Seq<char>, i: int)
    requires
        0 <= i < routes.len(),
        routes[i].pattern == p,
    ensures
        spec_first_match(routes, p) is Some,
        0 <= spec_first_match(routes, p).unwrap() <= i,
    decreases routes.len(),
{
    lemma_pattern_matches_itself(p);
    if spec_pattern_matches(routes[0].pattern, p) {
    } else {
        lemma_registered_path_found(routes.drop_first(), p, i - 1);
    }
}

/// Where a pattern matches at position `i` and nothing earlier matches,
/// position `i` is the first match.
pub proof fn lemma_first_match_at(routes: Seq<EntryModel>, p: Seq<char>, i: int)
    requires
        0 <= i < routes.len(),
        spec_pattern_matches(routes[i].pattern, p),
        forall|j: int| 0 <= j < i ==> !spec_pattern_matches(routes[j].pattern, p),
    ensures
        spec_first_match(routes, p) == Some(i),
    decreases routes.len(),
{
    if i > 0 {
        assert(forall|j: int|
            0 <= j < i - 1 ==> !spec_pattern_matches(routes.drop_first()[j].pattern, p));
        lemma_first_match_at(routes.drop_first(), p, i - 1);
    }
}

/// Navigating to a path whose first matching registration serves fixed
/// content — in particular any registered path with no dynamic segments
/// and no redirect in front of it — succeeds and makes exactly that path
/// the active route.
pub proof fn lemma_direct_route_keeps_path(
    r: RouterModel,
    active_route: Seq<char>,
    p: Seq<char>,
    now_ms: u64,
    i: int,
    kind: ContentKind,
)
    requires
        0 <= i < r.routes.len(),
        spec_first_match(r.routes, p) == Some(i),
        r.routes[i].target == TargetModel::Content(kind),
    ensures
        spec_navigate(r, active_route, p, now_ms).1 == p,
        spec_navigate(r, active_route, p, now_ms).2 == Ok::<(), NavigationError>(()),
{
}

/// The round trip for a directly registered path: where `p` stands
/// registered serving fixed content, and no earlier registration matches
/// it, navigating to `p` succeeds and reading the active route afterwards
/// yields exactly `p`.
pub proof fn lemma_registered_content_path_roundtrip(
    r: RouterModel,
    active_route: Seq<char>,
    p: Seq<char>,
    now_ms: u64,
    i: int,
    kind: ContentKind,
)
    requires
        0 <= i < r.routes.len(),
        r.routes[i].pattern == p,
        r.routes[i].target == TargetModel::Content(kind),
        forall|j: int| 0 <= j < i ==> !spec_pattern_matches(r.routes[j].pattern, p),
    ensures
        spec_navigate(r, active_route, p, now_ms).1 == p,
        spec_navigate(r, active_route, p, now_ms).2 == Ok::<(), NavigationError>(()),
{
    lemma_pattern_matches_itself(p);
    lemma_first_match_at(r.routes, p, i);
    lemma_direct_route_keeps_path(r, active_route, p, now_ms, i, kind);
}

/// A rejected navigation — no matching route, or a redirect chain past the
/// bound — changes neither the router nor the active route.
pub proof fn lemma_failed_navigation_unchanged(
    r: RouterModel,
    active_route: Seq<char>,
    p: Seq<char>,
    now_ms: u64,
)
    requires
        spec_navigate(r, active_route, p, now_ms).2 is Err,
    ensures
        spec_navigate(r, active_route, p, now_ms).0 == r,
        spec_navigate(r, active_route, p, now_ms).1 == active_route,
{
}

/// A redirect registration that resolves back to its own path never
/// reaches content: whatever the configured bound, the chain exhausts it
/// and the navigation is rejected as a loop.
pub proof fn lemma_self_redirect_loops(
    routes: Seq<EntryModel>,
    cats: Seq<CategoryModel>,
    p: Seq<char>,
    fuel: nat,
    i: int,
)
    requires
        0 <= i < routes.len(),
        spec_first_match(routes, p) == Some(i),
        routes[i].target == TargetModel::Redirect(p),
    ensures
        spec_resolve(routes, cats, p, fuel) == Resolution::RedirectLoop,
    decreases fuel,
{
    if fuel > 0 {
        lemma_self_redirect_loops(routes, cats, p, (fuel - 1) as nat, i);
    }
}

} // verus!
