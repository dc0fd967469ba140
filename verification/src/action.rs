//! What a session asks of its driver.

use vstd::prelude::*;
use crate::fetch::{Fetch, FetchView};

verus! {

/// What the driver is to do after a key press.
#[derive(Debug, Clone, PartialEq, Eq)]
pub enum Action {
    /// Nothing: wait for the next key.
    Stay,
    /// Make this request and report its outcome.
    Fetch(Fetch),
    /// End the session.
    Quit,
}

/// An [`Action`] with the request's argument as a sequence of characters.
pub enum ActionView {
    Stay,
    Fetch(FetchView),
    Quit,
}

impl View for Action {
    type V = ActionView;

    open spec fn view(&self) -> ActionView {
        match *self {
            Action::Stay => ActionView::Stay,
            Action::Fetch(fetch) => ActionView::Fetch(fetch@),
            Action::Quit => ActionView::Quit,
        }
    }
}

} // verus!
