//! The four screens and the movement of the selection within a list.

use vstd::prelude::*;

verus! {

/// The screen that is shown. On a screen with a list, `selected_index` is the
/// highlighted row; it is 0 where the list is empty.
#[derive(Debug, Clone, Copy, PartialEq, Eq)]
pub enum Screen {
    /// The query is being typed.
    Query,
    /// The hits of the last search.
    Results { selected_index: usize },
    /// The sources of the hit that was opened.
    Downloads { selected_index: usize },
    /// The files of the source that was opened.
    Files { selected_index: usize },
}

impl Screen {
    /// The same screen with row `index` selected. The query screen, which has
    /// no rows, stays as it is.
    pub open spec fn select(self, index: usize) -> Screen {
        match self {
            Screen::Query => Screen::Query,
            Screen::Results { .. } => Screen::Results { selected_index: index },
            Screen::Downloads { .. } => Screen::Downloads { selected_index: index },
            Screen::Files { .. } => Screen::Files { selected_index: index },
        }
    }
}

/// The row above `index`, or `index` itself at the top of the list.
pub open spec fn row_above(index: usize) -> usize {
    if index > 0 {
        (index - 1) as usize
    } else {
        index
    }
}

/// The row below `index` in a list of `len` rows, or `index` itself where no
/// row follows.
pub open spec fn row_below(index: usize, len: nat) -> usize {
    if index + 1 < len {
        (index + 1) as usize
    } else {
        index
    }
}

/// Whether `index` may be the selection in a list of `len` rows: a row of the
/// list, or 0 where there is none.
pub open spec fn selects(index: usize, len: nat) -> bool {
    index < len || (len == 0 && index == 0)
}

/// Moves a selection one row up without leaving the list.
pub fn move_up(index: usize) -> (moved: usize)
    ensures
        moved == row_above(index),
{
    if index > 0 {
        index - 1
    } else {
        index
    }
}

/// Moves a selection one row down without leaving a list of `len` rows.
pub fn move_down(index: usize, len: usize) -> (moved: usize)
    ensures
        moved == row_below(index, len as nat),
{
    if index < len && index + 1 < len {
        index + 1
    } else {
        index
    }
}

} // verus!
