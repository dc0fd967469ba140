//! What holds of every session, whatever keys are pressed and however the
//! requests end.

use vstd::prelude::*;
use crate::fetch::FetchOutcome;
use crate::input::{Event, Key, KeyPress};
use crate::screen::Screen;
use crate::action::ActionView;
use crate::model::SessionView;

verus! {

impl SessionView {
    /// The session after `times` presses of the same key.
    pub open spec fn after_key_repeated(self, press: KeyPress, times: nat) -> Self
        decreases times,
    {
        if times == 0 {
            self
        } else {
            self.after_key(press).after_key_repeated(press, (times - 1) as nat)
        }
    }

    /// The session after the events `events`, taken in order.
    pub open spec fn after_events(self, events: Seq<Event>) -> Self
        decreases events.len(),
    {
        if events.len() == 0 {
            self
        } else {
            self.after_events(events.drop_last()).after_event(events.last())
        }
    }
}

/// No event leads a session out of the states described by
/// [`SessionView::wf`].
pub proof fn lemma_event_keeps_wf(session: SessionView, event: Event)
    requires
        session.wf(),
    ensures
        session.after_event(event).wf(),
{
}

/// Every state a session can reach from its start is one described by
/// [`SessionView::wf`]: in particular the cursor stands within the query and
/// the selection is a row of the list shown.
pub proof fn lemma_reachable_is_wf(events: Seq<Event>)
    ensures
        SessionView::initial().after_events(events).wf(),
    decreases events.len(),
{
    if events.len() > 0 {
        lemma_reachable_is_wf(events.drop_last());
        lemma_event_keeps_wf(
            SessionView::initial().after_events(events.drop_last()),
            events.last(),
        );
    }
}

/// On a list that is not empty, Up and Down leave the list as it is and the
/// selection on one of its rows.
pub proof fn lemma_selection_stays_in_list(session: SessionView, press: KeyPress)
    requires
        session.wf(),
        session.list_len() > 0,
        press.key == Key::Up || press.key == Key::Down,
    ensures
        session.after_key(press).list_len() == session.list_len(),
        0 <= session.after_key(press).selected_index() < session.list_len(),
{
}

/// Up on the first row changes nothing, however often it is pressed.
pub proof fn lemma_up_at_top_is_idle(session: SessionView, press: KeyPress, times: nat)
    requires
        session.wf(),
        session.list_len() > 0,
        session.selected_index() == 0,
        press.key == Key::Up,
    ensures
        session.after_key_repeated(press, times) == session,
    decreases times,
{
    if times > 0 {
        lemma_up_at_top_is_idle(session, press, (times - 1) as nat);
    }
}

/// Down on the last row changes nothing, however often it is pressed.
pub proof fn lemma_down_at_bottom_is_idle(session: SessionView, press: KeyPress, times: nat)
    requires
        session.wf(),
        session.list_len() > 0,
        session.selected_index() == session.list_len() - 1,
        press.key == Key::Down,
    ensures
        session.after_key_repeated(press, times) == session,
    decreases times,
{
    if times > 0 {
        lemma_down_at_bottom_is_idle(session, press, (times - 1) as nat);
    }
}

/// Esc on the screen of files leads back to the screen of sources, on the row
/// of the source that was opened. The hits, the details and the sources are
/// the ones that were fetched before, and nothing is fetched again.
pub proof fn lemma_esc_from_files(session: SessionView, press: KeyPress)
    requires
        session.wf(),
        session.screen is Files,
        press.key == Key::Esc,
    ensures
        session.after_key(press).screen == (Screen::Downloads {
            selected_index: session.opened_download,
        }),
        session.after_key(press).details == session.details,
        session.after_key(press).download_items() == session.download_items(),
        session.after_key(press).results == session.results,
        session.after_key(press).field == session.field,
        session.after_key(press).files is None,
        !session.after_key(press).loading,
        session.action_on_key(press) == ActionView::Stay,
{
}

/// Esc on the screen of sources, while no request is under way, leads back to
/// the screen of hits, on the row of the hit that was opened. The hits are the
/// ones that were fetched before, the details are kept, and nothing is fetched
/// again. Esc once more leads to the query screen, where the query and the
/// cursor are as they were left and the hits and details are gone.
pub proof fn lemma_esc_from_downloads(session: SessionView, press: KeyPress)
    requires
        session.wf(),
        session.screen is Downloads,
        !session.loading,
        press.key == Key::Esc,
    ensures
        session.after_key(press).screen == (Screen::Results {
            selected_index: session.opened_result,
        }),
        session.after_key(press).results == session.results,
        session.after_key(press).details == session.details,
        session.after_key(press).field == session.field,
        session.action_on_key(press) == ActionView::Stay,
        session.after_key(press).after_key(press) == (SessionView {
            field: session.field,
            ..SessionView::initial()
        }),
        session.after_key(press).action_on_key(press) == ActionView::Stay,
{
}

/// Enter on an empty list changes nothing and asks for nothing, be it the
/// list of hits, of sources or of files.
pub proof fn lemma_enter_on_empty_list(session: SessionView, press: KeyPress)
    requires
        session.wf(),
        !(session.screen is Query),
        session.list_len() == 0,
        press.key == Key::Enter,
    ensures
        session.after_key(press) == session,
        session.action_on_key(press) == ActionView::Stay,
{
}

/// Enter on the screen of files changes nothing and asks for nothing.
pub proof fn lemma_enter_on_files(session: SessionView, press: KeyPress)
    requires
        session.screen is Files,
        press.key == Key::Enter,
    ensures
        session.after_key(press) == session,
        session.action_on_key(press) == ActionView::Stay,
{
}

/// Off the query screen no key changes the query or moves its cursor, and no
/// outcome of a request does so on any screen.
pub proof fn lemma_query_is_kept(session: SessionView, event: Event)
    requires
        !(session.screen is Query) || event is Fetched,
    ensures
        session.after_event(event).field == session.field,
{
}

/// While a request is under way no key changes anything or asks for
/// anything.
pub proof fn lemma_keys_wait_for_fetch(session: SessionView, press: KeyPress)
    requires
        session.loading,
    ensures
        session.after_key(press) == session,
        session.action_on_key(press) == ActionView::Stay,
{
}

/// A session is loading after a key press exactly if that press asked for a
/// request or one was under way before.
pub proof fn lemma_loading_while_fetching(session: SessionView, press: KeyPress)
    requires
        session.wf(),
    ensures
        session.after_key(press).loading <==> session.loading || session.action_on_key(
            press,
        ) is Fetch,
{
}

/// However a request ends, the session is no longer loading afterwards, and
/// it shows an error exactly if it stayed on its screen.
pub proof fn lemma_fetch_ends_loading(session: SessionView, outcome: FetchOutcome)
    requires
        session.wf(),
        session.loading,
    ensures
        !session.after_fetch(outcome).loading,
        session.after_fetch(outcome).error is Some <==> session.after_fetch(outcome).screen
            == session.screen,
        session.after_fetch(outcome).screen != session.screen ==> session.after_fetch(
            outcome,
        ).selected_index() == 0,
{
}

/// Esc undoes Enter: where Enter on a screen asked for a request and the
/// answer led one screen on, Esc leads back to that screen, with the same
/// selection, the same list and the same query.
pub proof fn lemma_esc_undoes_enter(
    session: SessionView,
    enter: KeyPress,
    outcome: FetchOutcome,
    esc: KeyPress,
)
    requires
        session.wf(),
        !session.loading,
        enter.key == Key::Enter,
        esc.key == Key::Esc,
        session.after_key(enter).after_fetch(outcome).screen != session.screen,
    ensures
        session.after_key(enter).after_fetch(outcome).after_key(esc).screen == session.screen,
        session.after_key(enter).after_fetch(outcome).after_key(esc).field == session.field,
        session.after_key(enter).after_fetch(outcome).after_key(esc).list_len()
            == session.list_len(),
        session.after_key(enter).after_fetch(outcome).after_key(esc).action_on_key(enter)
            == session.action_on_key(enter),
{
}

} // verus!
