use vstd::prelude::*;

use crate::inbox::Inbox;

verus! {

/// The mutable context threaded through every frame: the outbound message
/// queue and the currently active route. Owned by the application loop,
/// lent by unique mutable reference to the router, the sidebar and route
/// content for the duration of a single call.
pub struct SharedState {
    pub tx: Inbox,
    pub active_route: String,
}

impl SharedState {
    /// A fresh shared state around the given outbound queue; no route has
    /// been resolved yet.
    pub fn new(tx: Inbox) -> (state: SharedState)
        ensures
            state.tx == tx,
            state.active_route@ == "/example"@,
    {
        SharedState { tx, active_route: String::from_str("/example") }
    }
}

} // verus!
