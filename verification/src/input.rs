//! What the user does, as the session sees it.

use vstd::prelude::*;
use crate::fetch::FetchOutcome;

verus! {

/// The keys the session tells apart.
#[derive(Debug, Clone, Copy, PartialEq, Eq)]
pub enum Key {
    /// A key that stands for a character.
    Char(char),
    Backspace,
    Left,
    Right,
    Enter,
    Up,
    Down,
    Esc,
    /// Any key the session has no use for.
    Other,
}

/// One press of a key.
#[derive(Debug, Clone, Copy, PartialEq, Eq)]
pub struct KeyPress {
    pub key: Key,
    /// Whether the control key was held down with it. A character typed that
    /// way is a command to the terminal, not text.
    pub control: bool,
}

impl KeyPress {
    /// A press of `key` alone.
    pub fn plain(key: Key) -> (press: KeyPress)
        ensures
            press == (KeyPress { key, control: false }),
    {
        KeyPress { key, control: false }
    }
}

/// What happens to a session: a key is pressed, or a request ends.
#[derive(Debug, Clone, PartialEq, Eq)]
pub enum Event {
    Key(KeyPress),
    Fetched(FetchOutcome),
}

} // verus!
