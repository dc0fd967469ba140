//! The session as a state machine: what a session is, and what each event
//! makes of it.

use vstd::prelude::*;
use crate::action::ActionView;
use crate::api::structs::{DetailResponse, DownloadItems, DownloadResponse, FileItems, SearchResponse};
use crate::fetch::{FetchError, FetchKind, FetchOutcome, FetchView};
use crate::input::{Event, Key, KeyPress};
use crate::screen::{row_above, row_below, selects, Screen};
use crate::text_field::TextFieldView;

verus! {

/// One row of a list as it is to be shown.
pub struct RowView {
    pub label: Seq<char>,
    pub note: Seq<char>,
    pub selected: bool,
}

/// What a session is.
pub struct SessionView {
    /// The query, which is kept while the other screens are shown.
    pub field: TextFieldView,
    pub screen: Screen,
    /// The hits of the last search; empty on the query screen.
    pub results: Seq<SearchResponse>,
    /// The details of the hit that was opened last, until the hits are left.
    pub details: Option<DetailResponse>,
    /// The files of the source that was opened, while they are shown.
    pub files: Option<DownloadResponse>,
    /// The row of `results` that `details` belongs to; 0 without details.
    pub opened_result: usize,
    /// The row of the sources that `files` belongs to; 0 without files.
    pub opened_download: usize,
    /// Whether a request is under way.
    pub loading: bool,
    /// Why the last request failed, until another is made or a screen is left.
    pub error: Option<FetchError>,
}

impl SessionView {
    /// The sources of the opened hit; none where no hit is open.
    pub open spec fn download_items(self) -> Seq<DownloadItems> {
        match self.details {
            Some(details) => details.download_items@,
            None => Seq::empty(),
        }
    }

    /// The files of the opened source; none where no source is open.
    pub open spec fn file_items(self) -> Seq<FileItems> {
        match self.files {
            Some(files) => files.files@,
            None => Seq::empty(),
        }
    }

    /// The number of rows of the list on the screen; 0 on the query screen.
    pub open spec fn list_len(self) -> nat {
        match self.screen {
            Screen::Query => 0,
            Screen::Results { .. } => self.results.len(),
            Screen::Downloads { .. } => self.download_items().len(),
            Screen::Files { .. } => self.file_items().len(),
        }
    }

    /// The highlighted row of the list on the screen; 0 on the query screen.
    pub open spec fn selected_index(self) -> usize {
        match self.screen {
            Screen::Query => 0,
            Screen::Results { selected_index } => selected_index,
            Screen::Downloads { selected_index } => selected_index,
            Screen::Files { selected_index } => selected_index,
        }
    }

    /// The request that is under way, if any.
    pub open spec fn pending(self) -> Option<FetchKind> {
        if self.loading {
            match self.screen {
                Screen::Query => Some(FetchKind::Search),
                Screen::Results { .. } => Some(FetchKind::Details),
                Screen::Downloads { .. } => Some(FetchKind::Download),
                Screen::Files { .. } => None,
            }
        } else {
            None
        }
    }

    /// What row `row` of the list on the screen is called: the title of a hit,
    /// the file name of a source, the name of a file.
    pub open spec fn label(self, row: int) -> Seq<char> {
        match self.screen {
            Screen::Query => Seq::empty(),
            Screen::Results { .. } => self.results[row].title@,
            Screen::Downloads { .. } => self.download_items()[row].file_name@,
            Screen::Files { .. } => self.file_items()[row].name@,
        }
    }

    /// What is shown behind the label of row `row`: for a file, the number of
    /// its connections; nothing for other rows.
    pub open spec fn note(self, row: int) -> Seq<char> {
        match self.screen {
            Screen::Files { .. } => "(Connections: "@ + self.file_items()[row].connections@ + ")"@,
            _ => Seq::empty(),
        }
    }

    /// The rows of the list on the screen, in the order of the list, with
    /// exactly the selected one marked.
    pub open spec fn rows(self) -> Seq<RowView> {
        Seq::new(
            self.list_len(),
            |row: int|
                RowView {
                    label: self.label(row),
                    note: self.note(row),
                    selected: row == self.selected_index(),
                },
        )
    }

    /// What holds of every session: each screen has the data it shows and no
    /// data of the screens behind it, the selection is a row of the list
    /// shown, and a request is under way only where Enter makes one.
    pub open spec fn wf(self) -> bool {
        &&& self.field.wf()
        &&& selects(self.selected_index(), self.list_len())
        &&& self.loading ==> self.error is None
        &&& self.details is Some ==> self.opened_result < self.results.len()
        &&& self.details is None ==> self.opened_result == 0
        &&& self.files is Some ==> self.opened_download < self.download_items().len()
        &&& self.files is None ==> self.opened_download == 0
        &&& match self.screen {
            Screen::Query => self.results.len() == 0 && self.details is None && self.files is None,
            Screen::Results { .. } => self.files is None && (self.loading ==> self.results.len()
                > 0),
            Screen::Downloads { .. } => self.details is Some && self.files is None && (self.loading
                ==> self.download_items().len() > 0),
            Screen::Files { .. } => self.details is Some && self.files is Some && !self.loading,
        }
    }

    /// The session at its start: the query screen, an empty query, nothing
    /// fetched.
    pub open spec fn initial() -> Self {
        SessionView {
            field: TextFieldView::empty(),
            screen: Screen::Query,
            results: Seq::empty(),
            details: None,
            files: None,
            opened_result: 0,
            opened_download: 0,
            loading: false,
            error: None,
        }
    }

    /// The request that leads one screen on from here: a search for the query
    /// as typed, the details of the selected hit, or the files of the selected
    /// source. There is none where the list on the screen is empty, and none
    /// on the screen of files.
    pub open spec fn forward(self) -> Option<FetchView> {
        match self.screen {
            Screen::Query => Some(
                FetchView { kind: FetchKind::Search, argument: self.field.content },
            ),
            Screen::Results { selected_index } => if self.results.len() > 0 {
                Some(
                    FetchView {
                        kind: FetchKind::Details,
                        argument: self.results[selected_index as int].path@,
                    },
                )
            } else {
                None
            },
            Screen::Downloads { selected_index } => if self.download_items().len() > 0 {
                Some(
                    FetchView {
                        kind: FetchKind::Download,
                        argument: self.download_items()[selected_index as int].download_key@,
                    },
                )
            } else {
                None
            },
            Screen::Files { .. } => None,
        }
    }

    /// The session with row `index` of the list on the screen selected.
    pub open spec fn select(self, index: usize) -> Self {
        SessionView { screen: self.screen.select(index), ..self }
    }

    /// The session one screen back: what was fetched for the screen that is
    /// left is dropped, what was fetched before is kept, and the selection is
    /// on the row that had been opened. The hits are left for the query
    /// screen, where nothing fetched is kept; the query screen is left for
    /// none.
    pub open spec fn back(self) -> Self {
        match self.screen {
            Screen::Query => self,
            Screen::Results { .. } => SessionView {
                screen: Screen::Query,
                results: Seq::empty(),
                details: None,
                opened_result: 0,
                error: None,
                ..self
            },
            Screen::Downloads { .. } => SessionView {
                screen: Screen::Results { selected_index: self.opened_result },
                error: None,
                ..self
            },
            Screen::Files { .. } => SessionView {
                screen: Screen::Downloads { selected_index: self.opened_download },
                files: None,
                opened_download: 0,
                error: None,
                ..self
            },
        }
    }

    /// The query field after a key press that is taken as an edit of it. A
    /// character typed with the control key held is not text.
    pub open spec fn edited(self, press: KeyPress) -> TextFieldView {
        match press.key {
            Key::Char(c) => if press.control {
                self.field
            } else {
                self.field.insert_char(c)
            },
            Key::Backspace => self.field.delete_char(),
            Key::Left => self.field.move_cursor_left(),
            Key::Right => self.field.move_cursor_right(),
            _ => self.field,
        }
    }

    /// The session after a key press.
    ///
    /// While a request is under way no key changes anything. Otherwise Up and
    /// Down move the selection by one row without leaving the list, Enter
    /// marks the session as loading where it asks for a request, Esc leads
    /// one screen back, and the other keys edit the query while the query
    /// screen is shown.
    pub open spec fn after_key(self, press: KeyPress) -> Self {
        if self.loading {
            self
        } else {
            match press.key {
                Key::Up => self.select(row_above(self.selected_index())),
                Key::Down => self.select(row_below(self.selected_index(), self.list_len())),
                Key::Enter => if self.forward() is Some {
                    SessionView { loading: true, error: None, ..self }
                } else {
                    self
                },
                Key::Esc => self.back(),
                _ => if self.screen is Query {
                    SessionView { field: self.edited(press), ..self }
                } else {
                    self
                },
            }
        }
    }

    /// What a key press asks of the driver: Enter, the request that leads one
    /// screen on, where there is one; Esc on the query screen, to end the
    /// session; nothing otherwise, and nothing at all while a request is under
    /// way.
    pub open spec fn action_on_key(self, press: KeyPress) -> ActionView {
        if self.loading {
            ActionView::Stay
        } else {
            match press.key {
                Key::Enter => match self.forward() {
                    Some(fetch) => ActionView::Fetch(fetch),
                    None => ActionView::Stay,
                },
                Key::Esc => if self.screen is Query {
                    ActionView::Quit
                } else {
                    ActionView::Stay
                },
                _ => ActionView::Stay,
            }
        }
    }

    /// The session after the request under way has failed with `error`: where
    /// it was, no longer loading, with the error recorded.
    pub open spec fn failed(self, error: FetchError) -> Self {
        SessionView { loading: false, error: Some(error), ..self }
    }

    /// The session after a request has ended. An answer to the request that was
    /// made leads one screen on, with the first row selected. A failure, or an
    /// answer to another request, leaves the screen and records the error.
    /// Where no request is under way an outcome changes nothing.
    pub open spec fn after_fetch(self, outcome: FetchOutcome) -> Self {
        if !self.loading {
            self
        } else {
            match (self.screen, outcome) {
                (Screen::Query, FetchOutcome::Search(results)) => SessionView {
                    screen: Screen::Results { selected_index: 0 },
                    results: results@,
                    loading: false,
                    ..self
                },
                (Screen::Results { selected_index }, FetchOutcome::Details(details)) => SessionView {
                    screen: Screen::Downloads { selected_index: 0 },
                    details: Some(details),
                    opened_result: selected_index,
                    loading: false,
                    ..self
                },
                (Screen::Downloads { selected_index }, FetchOutcome::Files(files)) => SessionView {
                    screen: Screen::Files { selected_index: 0 },
                    files: Some(files),
                    opened_download: selected_index,
                    loading: false,
                    ..self
                },
                (_, FetchOutcome::Failed(error)) => self.failed(error),
                _ => self.failed(FetchError::Unexpected),
            }
        }
    }

    /// The session after an event.
    pub open spec fn after_event(self, event: Event) -> Self {
        match event {
            Event::Key(press) => self.after_key(press),
            Event::Fetched(outcome) => self.after_fetch(outcome),
        }
    }

    /// What an event asks of the driver: only a key press asks for anything.
    pub open spec fn action_on_event(self, event: Event) -> ActionView {
        match event {
            Event::Key(press) => self.action_on_key(press),
            Event::Fetched(_) => ActionView::Stay,
        }
    }
}

} // verus!
