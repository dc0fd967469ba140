//! The session: one state, changed by key presses and finished fetches.
//!
//! A session never reads a key or talks to the catalog. Its driver hands it the
//! key presses; where a press calls for a request the session returns it as an
//! [`Action`], marks itself as loading and takes no further key until the
//! driver reports how the request ended. A request that fails leaves the
//! session on the screen it was made from, with the error recorded, so that
//! the user can try again or go back.

use vstd::prelude::*;
use crate::action::Action;
use crate::api::structs::{DetailResponse, DownloadResponse, SearchResponse};
use crate::fetch::{Fetch, FetchError, FetchKind, FetchOutcome};
use crate::input::{Event, Key, KeyPress};
use crate::model::{RowView, SessionView};
use crate::screen::{move_down, move_up, selects, Screen};
use crate::text_field::TextField;

verus! {

/// One row of a list as it is to be shown.
#[derive(Debug, Clone, PartialEq, Eq)]
pub struct Row {
    /// What the row is called.
    pub label: String,
    /// What is shown behind the label; empty for most rows.
    pub note: String,
    /// Whether the row is the highlighted one.
    pub selected: bool,
}

impl View for Row {
    type V = RowView;

    open spec fn view(&self) -> RowView {
        RowView { label: self.label@, note: self.note@, selected: self.selected }
    }
}

/// An interactive session with the catalog.
pub struct Session {
    text_field: TextField,
    screen: Screen,
    results: Vec<SearchResponse>,
    details: Option<DetailResponse>,
    files: Option<DownloadResponse>,
    opened_result: usize,
    opened_download: usize,
    loading: bool,
    error: Option<FetchError>,
}

impl View for Session {
    type V = SessionView;

    closed spec fn view(&self) -> SessionView {
        SessionView {
            field: self.text_field@,
            screen: self.screen,
            results: self.results@,
            details: self.details,
            files: self.files,
            opened_result: self.opened_result,
            opened_download: self.opened_download,
            loading: self.loading,
            error: self.error,
        }
    }
}

impl Session {
    #[verifier::type_invariant]
    spec fn inv(self) -> bool {
        self@.wf()
    }

    /// A session at its start.
    pub fn new() -> (session: Self)
        ensures
            session@ == SessionView::initial(),
    {
        Session {
            text_field: TextField::new(),
            screen: Screen::Query,
            results: Vec::new(),
            details: None,
            files: None,
            opened_result: 0,
            opened_download: 0,
            loading: false,
            error: None,
        }
    }

    /// Takes a key press and says what the driver is to do.
    pub fn handle_key(&mut self, press: KeyPress) -> (action: Action)
        ensures
            final(self)@ == old(self)@.after_key(press),
            action@ == old(self)@.action_on_key(press),
            final(self)@.wf(),
    {
        let Session {
            mut text_field,
            mut screen,
            mut results,
            mut details,
            mut files,
            mut opened_result,
            mut opened_download,
            mut loading,
            mut error,
        } = self.take();
        let mut action = Action::Stay;
        if !loading {
            match screen {
                Screen::Query => match press.key {
                    Key::Char(c) => if !press.control {
                        text_field.insert_char(c);
                    },
                    Key::Backspace => text_field.delete_char(),
                    Key::Left => text_field.move_cursor_left(),
                    Key::Right => text_field.move_cursor_right(),
                    Key::Enter => {
                        action =
                        Action::Fetch(Fetch { kind: FetchKind::Search, argument: text_field.text() });
                        loading = true;
                        error = None;
                    },
                    Key::Esc => {
                        action = Action::Quit;
                    },
                    _ => {},
                },
                Screen::Results { selected_index } => match press.key {
                    Key::Up => {
                        screen = Screen::Results { selected_index: move_up(selected_index) };
                    },
                    Key::Down => {
                        screen =
                        Screen::Results { selected_index: move_down(selected_index, results.len()) };
                    },
                    Key::Enter => if results.len() > 0 {
                        action =
                        Action::Fetch(
                            Fetch {
                                kind: FetchKind::Details,
                                argument: results[selected_index].path.clone(),
                            },
                        );
                        loading = true;
                        error = None;
                    },
                    Key::Esc => {
                        screen = Screen::Query;
                        results = Vec::new();
                        details = None;
                        opened_result = 0;
                        error = None;
                    },
                    _ => {},
                },
                Screen::Downloads { selected_index } => match press.key {
                    Key::Up => {
                        screen = Screen::Downloads { selected_index: move_up(selected_index) };
                    },
                    Key::Down => {
                        let len: usize = match &details {
                            Some(opened) => opened.download_items.len(),
                            None => 0,
                        };
                        screen = Screen::Downloads { selected_index: move_down(selected_index, len) };
                    },
                    Key::Enter => match &details {
                        Some(opened) => if opened.download_items.len() > 0 {
                            action =
                            Action::Fetch(
                                Fetch {
                                    kind: FetchKind::Download,
                                    argument: opened.download_items[selected_index].download_key.clone(),
                                },
                            );
                            loading = true;
                            error = None;
                        },
                        None => {},
                    },
                    Key::Esc => {
                        screen = Screen::Results { selected_index: opened_result };
                        error = None;
                    },
                    _ => {},
                },
                Screen::Files { selected_index } => match press.key {
                    Key::Up => {
                        screen = Screen::Files { selected_index: move_up(selected_index) };
                    },
                    Key::Down => {
                        let len: usize = match &files {
                            Some(opened) => opened.files.len(),
                            None => 0,
                        };
                        screen = Screen::Files { selected_index: move_down(selected_index, len) };
                    },
                    Key::Esc => {
                        screen = Screen::Downloads { selected_index: opened_download };
                        files = None;
                        opened_download = 0;
                        error = None;
                    },
                    _ => {},
                },
            }
        }
        *self =
        Session {
            text_field,
            screen,
            results,
            details,
            files,
            opened_result,
            opened_download,
            loading,
            error,
        };
        action
    }

    /// Takes the outcome of the request under way.
    pub fn complete_fetch(&mut self, outcome: FetchOutcome)
        ensures
            final(self)@ == old(self)@.after_fetch(outcome),
            final(self)@.wf(),
    {
        let Session {
            text_field,
            mut screen,
            mut results,
            mut details,
            mut files,
            mut opened_result,
            mut opened_download,
            mut loading,
            mut error,
        } = self.take();
        if loading {
            loading = false;
            match outcome {
                FetchOutcome::Search(found) => match screen {
                    Screen::Query => {
                        screen = Screen::Results { selected_index: 0 };
                        results = found;
                    },
                    _ => {
                        error = Some(FetchError::Unexpected);
                    },
                },
                FetchOutcome::Details(found) => match screen {
                    Screen::Results { selected_index } => {
                        screen = Screen::Downloads { selected_index: 0 };
                        details = Some(found);
                        opened_result = selected_index;
                    },
                    _ => {
                        error = Some(FetchError::Unexpected);
                    },
                },
                FetchOutcome::Files(found) => match screen {
                    Screen::Downloads { selected_index } => {
                        screen = Screen::Files { selected_index: 0 };
                        files = Some(found);
                        opened_download = selected_index;
                    },
                    _ => {
                        error = Some(FetchError::Unexpected);
                    },
                },
                FetchOutcome::Failed(reason) => {
                    error = Some(reason);
                },
            }
        }
        *self =
        Session {
            text_field,
            screen,
            results,
            details,
            files,
            opened_result,
            opened_download,
            loading,
            error,
        };
    }

    /// Takes an event, of either kind, and says what the driver is to do.
    pub fn step(&mut self, event: Event) -> (action: Action)
        ensures
            final(self)@ == old(self)@.after_event(event),
            action@ == old(self)@.action_on_event(event),
            final(self)@.wf(),
    {
        match event {
            Event::Key(press) => self.handle_key(press),
            Event::Fetched(outcome) => {
                self.complete_fetch(outcome);
                Action::Stay
            },
        }
    }

    /// The screen that is shown, with its selection.
    pub fn screen(&self) -> (screen: Screen)
        ensures
            screen == self@.screen,
    {
        self.screen
    }

    /// The query field.
    pub fn text_field(&self) -> (field: &TextField)
        ensures
            field@ == self@.field,
            field@.wf(),
    {
        proof {
            use_type_invariant(self);
        }
        &self.text_field
    }

    /// The hits of the last search.
    pub fn results(&self) -> (results: &Vec<SearchResponse>)
        ensures
            results@ == self@.results,
    {
        &self.results
    }

    /// The details of the hit that was opened, if they are kept.
    pub fn details(&self) -> (details: Option<&DetailResponse>)
        ensures
            match details {
                Some(kept) => self@.details == Some(*kept),
                None => self@.details is None,
            },
    {
        self.details.as_ref()
    }

    /// The files of the source that was opened, while they are shown.
    pub fn files(&self) -> (files: Option<&DownloadResponse>)
        ensures
            match files {
                Some(kept) => self@.files == Some(*kept),
                None => self@.files is None,
            },
    {
        self.files.as_ref()
    }

    /// Whether a request is under way.
    pub fn is_loading(&self) -> (loading: bool)
        ensures
            loading == self@.loading,
    {
        self.loading
    }

    /// The request that is under way, if any.
    pub fn pending(&self) -> (pending: Option<FetchKind>)
        ensures
            pending == self@.pending(),
            pending is Some <==> self@.loading,
    {
        proof {
            use_type_invariant(self);
        }
        if self.loading {
            match self.screen {
                Screen::Query => Some(FetchKind::Search),
                Screen::Results { .. } => Some(FetchKind::Details),
                Screen::Downloads { .. } => Some(FetchKind::Download),
                Screen::Files { .. } => None,
            }
        } else {
            None
        }
    }

    /// Why the last request failed, if it did and the failure still stands.
    pub fn error(&self) -> (error: Option<FetchError>)
        ensures
            error == self@.error,
    {
        self.error
    }

    /// The number of rows of the list on the screen; 0 on the query screen.
    pub fn list_len(&self) -> (len: usize)
        ensures
            len == self@.list_len(),
    {
        match self.screen {
            Screen::Query => 0,
            Screen::Results { .. } => self.results.len(),
            Screen::Downloads { .. } => match &self.details {
                Some(opened) => opened.download_items.len(),
                None => 0,
            },
            Screen::Files { .. } => match &self.files {
                Some(opened) => opened.files.len(),
                None => 0,
            },
        }
    }

    /// The highlighted row of the list on the screen; 0 where there is none.
    pub fn selected_index(&self) -> (index: usize)
        ensures
            index == self@.selected_index(),
            selects(index, self@.list_len()),
    {
        proof {
            use_type_invariant(self);
        }
        match self.screen {
            Screen::Query => 0,
            Screen::Results { selected_index } => selected_index,
            Screen::Downloads { selected_index } => selected_index,
            Screen::Files { selected_index } => selected_index,
        }
    }

    /// The rows of the list on the screen, in the order of the list, with
    /// exactly the selected one marked. There is no row on the query screen
    /// and none where the list is empty.
    pub fn rows(&self) -> (rows: Vec<Row>)
        ensures
            rows@.len() == self@.list_len(),
            forall|row: int| 0 <= row < rows@.len() ==> (#[trigger] rows@[row])@ == self@.rows()[row],
    {
        let len = self.list_len();
        let selected = self.selected_index();
        let mut rows: Vec<Row> = Vec::new();
        let mut row: usize = 0;
        while row < len
            invariant
                len == self@.list_len(),
                selected == self@.selected_index(),
                row <= len,
                rows@.len() == row,
                forall|above: int|
                    0 <= above < row ==> (#[trigger] rows@[above])@ == self@.rows()[above],
            decreases len - row,
        {
            let (label, note) = self.row_texts(row);
            rows.push(Row { label, note, selected: row == selected });
            row += 1;
        }
        rows
    }

    /// The label and the note of row `row` of the list on the screen.
    fn row_texts(&self, row: usize) -> (texts: (String, String))
        requires
            row < self@.list_len(),
        ensures
            texts.0@ == self@.label(row as int),
            texts.1@ == self@.note(row as int),
    {
        match self.screen {
            Screen::Query => (String::new(), String::new()),
            Screen::Results { .. } => (self.results[row].title.clone(), String::new()),
            Screen::Downloads { .. } => match &self.details {
                Some(opened) => (opened.download_items[row].file_name.clone(), String::new()),
                None => (String::new(), String::new()),
            },
            Screen::Files { .. } => match &self.files {
                Some(opened) => {
                    let mut note = String::from_str("(Connections: ");
                    note.append(opened.files[row].connections.as_str());
                    note.append(")");
                    (opened.files[row].name.clone(), note)
                },
                None => (String::new(), String::new()),
            },
        }
    }

    /// Moves the session's value out, leaving a fresh session behind.
    fn take(&mut self) -> (taken: Self)
        ensures
            taken == *old(self),
            taken.inv(),
            final(self)@ == SessionView::initial(),
    {
        proof {
            use_type_invariant(&*self);
        }
        let mut taken = Session::new();
        core::mem::swap(self, &mut taken);
        taken
    }
}

} // verus!
