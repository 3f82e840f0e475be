use vstd::prelude::*;

verus! {

/// An application event, produced anywhere and consumed exactly once by the
/// application loop on the UI thread. The only event the navigation core
/// understands is a request to navigate to a path.
pub enum AppMessage {
    Navigate(String),
}

/// The mathematical value of an `AppMessage`: the same variants, over
/// character sequences instead of heap strings.
pub enum MsgModel {
    Navigate(Seq<char>),
}

impl View for AppMessage {
    type V = MsgModel;

    open spec fn view(&self) -> MsgModel {
        match self {
            AppMessage::Navigate(p) => MsgModel::Navigate(p@),
        }
    }
}

} // verus!
