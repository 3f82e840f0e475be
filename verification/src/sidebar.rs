use vstd::prelude::*;

use crate::example::{Category, views_of_categories};
use crate::message::{AppMessage, MsgModel};
use crate::shared_state::SharedState;

verus! {

/// The route string under which an example with the given slug lives.
pub fn example_route_path(slug: &str) -> (r: String)
    ensures
        r@ == "/example/"@ + slug@,
{
    String::from_str("/example/").concat(slug)
}

/// The sidebar navigator: lists the registered examples and turns user
/// clicks into outbound Navigate messages rather than touching the router
/// itself, so the application loop stays the only writer of navigation
/// state.
pub struct SideBar {}

impl SideBar {
    /// Whether the entry for `slug` is the active one and should be
    /// highlighted.
    pub fn is_selected(shared: &SharedState, slug: &str) -> (sel: bool)
        ensures
            sel == (shared.active_route@ == "/example/"@ + slug@),
    {
        let route = example_route_path(slug);
        shared.active_route == route
    }

    /// The sidebar's per-frame logic. The host draws the entries and
    /// reports which one, if any, was clicked, as (category, example)
    /// indexes. A click on a listed example sends a Navigate message for
    /// its route through the shared sender; nothing else changes. Returns
    /// whether a click was handled this frame.
    pub fn ui(shared: &mut SharedState, examples: &Vec<Category>, clicked: Option<(usize, usize)>) -> (handled: bool)
        ensures
            final(shared).active_route == old(shared).active_route,
            ({
                let cats = views_of_categories(examples@);
                match clicked {
                    Some(idx) => {
                        if idx.0 < cats.len() && idx.1 < cats[idx.0 as int].examples.len() {
                            &&& handled
                            &&& final(shared).tx@ == old(shared).tx@.push(
                                MsgModel::Navigate(
                                    "/example/"@ + cats[idx.0 as int].examples[idx.1 as int].slug,
                                ),
                            )
                        } else {
                            &&& !handled
                            &&& final(shared).tx@ == old(shared).tx@
                        }
                    },
                    None => {
                        &&& !handled
                        &&& final(shared).tx@ == old(shared).tx@
                    },
                }
            }),
    {
        match clicked {
            None => false,
            Some((c, e)) => {
                if c < examples.len() {
                    let category = &examples[c];
                    if e < category.examples.len() {
                        let route = example_route_path(category.examples[e].slug.as_str());
                        proof {
                            let cats = views_of_categories(examples@);
                            assert(cats[c as int] == examples@[c as int]@);
                            assert(cats[c as int].examples[e as int]
                                == examples@[c as int].examples@[e as int]@);
                        }
                        shared.tx.send(AppMessage::Navigate(route));
                        return true;
                    }
                }
                proof {
                    let cats = views_of_categories(examples@);
                    if c < cats.len() {
                        assert(cats[c as int] == examples@[c as int]@);
                    }
                }
                false
            },
        }
    }
}

} // verus!
