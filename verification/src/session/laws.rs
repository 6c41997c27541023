//! What holds of every session, whatever keys and answers come in.

use vstd::prelude::*;

use crate::git::backend::{RequestView, Response};
use crate::git::branch::{shown_name, Branch};
use crate::git::branch_manager::decodable_names;
use crate::session::messages::{spec_refresh_failed, spec_switch_failed};
use crate::session::model::{cursor_in_range, AppView, PendingView};
use crate::session::Event;
use crate::ui::controls::{
    lemma_resolve_first_match,
    lemma_standard_table_resolves,
    standard_table,
    Control,
    KeyEvent,
    KeyEventKind,
};
use crate::ui::status::{OperationStatusType, StatusView, STATUS_TTL_MILLIS};

verus! {

/// A session starts valid and ready for a key, with no branches and no
/// selection. Its first listing comes in as any later one does: where the
/// repository lists its branches, they are the list and the first of them is
/// selected; where it fails, the list stays empty, the error is shown, and the
/// session goes on.
pub proof fn lemma_session_starts_empty(
    listed: Vec<Branch>,
    reason: String,
    asked_at: u64,
    answered_at: u64,
)
    ensures
        AppView::fresh().wf(),
        !AppView::fresh().is_deaf(),
        AppView::fresh().branches.len() == 0,
        AppView::fresh().selected is None,
        ({
            let (asking, request) = AppView::fresh().perform(Control::Refresh, asked_at);
            let listing = asking.resume(Response::LocalBranches(Ok(listed)), answered_at).0;
            let failing = asking.resume(Response::LocalBranches(Err(reason)), answered_at).0;
            &&& request == Some(RequestView::ListLocalBranches)
            &&& listing.branches == listed.deep_view()
            &&& listing.selected == (if listed.deep_view().len() > 0 {
                Some(0nat)
            } else {
                None
            })
            &&& !listing.is_deaf()
            &&& failing.branches.len() == 0
            &&& failing.selected is None
            &&& failing.status == StatusView::set_at(
                spec_refresh_failed(reason@),
                OperationStatusType::Error,
                answered_at,
            )
            &&& !failing.is_deaf()
        }),
{
}

/// A press of the key of an action is that action, in every session.
pub proof fn lemma_keys_mean_their_actions(session: AppView, action: Control, now: u64)
    ensures
        session.handle_key(KeyEvent { code: action.spec_key(), kind: KeyEventKind::Press }, now)
            == session.perform(action, now),
{
    lemma_standard_table_resolves(action);
}

/// A key that is not pressed, or that is the key of no action, changes
/// nothing and asks nothing, in every session.
pub proof fn lemma_other_keys_do_nothing(session: AppView, key: KeyEvent, now: u64)
    requires
        key.kind != KeyEventKind::Press || forall|action: Control| action.spec_key() != key.code,
    ensures
        session.handle_key(key, now) == (session, None::<RequestView>),
{
    if key.kind == KeyEventKind::Press {
        lemma_resolve_first_match(standard_table(), key.code);
    }
}

/// No event takes the selection out of the list: a valid session stays
/// valid, whatever happens to it.
pub proof fn lemma_step_keeps_session_valid(session: AppView, event: Event, now: u64)
    requires
        session.wf(),
    ensures
        session.step(event, now).0.wf(),
{
}

/// A valid session stays valid over any run of events.
pub proof fn lemma_run_keeps_session_valid(session: AppView, events: Seq<(Event, u64)>)
    requires
        session.wf(),
    ensures
        session.run(events).wf(),
    decreases events.len(),
{
    if events.len() > 0 {
        lemma_run_keeps_session_valid(session, events.drop_last());
        lemma_step_keeps_session_valid(
            session.run(events.drop_last()),
            events.last().0,
            events.last().1,
        );
    }
}

/// Moving up and down, in any order and any number of times, changes nothing
/// but the selection, and the selection stays in the list: on a branch where
/// there are branches, on none where there are none.
pub proof fn lemma_navigation_stays_in_list(session: AppView, moves: Seq<Control>, now: u64)
    requires
        session.wf(),
        forall|i: int| 0 <= i < moves.len() ==> moves[i] == Control::Up || moves[i] == Control::Down,
    ensures
        session.after_actions(moves, now) == (AppView {
            selected: session.after_actions(moves, now).selected,
            ..session
        }),
        cursor_in_range(session.after_actions(moves, now).selected, session.branches.len()),
        session.branches.len() == 0 ==> session.after_actions(moves, now).selected is None,
        session.branches.len() > 0 ==> session.after_actions(moves, now).selected is Some
            && session.after_actions(moves, now).selected->0 < session.branches.len(),
    decreases moves.len(),
{
    if moves.len() > 0 {
        let before = moves.drop_last();
        assert forall|i: int| 0 <= i < before.len() implies before[i] == Control::Up || before[i]
            == Control::Down by {
            assert(before[i] == moves[i]);
        }
        lemma_navigation_stays_in_list(session, before, now);
        assert(moves.last() == moves[moves.len() - 1]);
    }
}

/// The session after a refresh that the repository answered with `listed`:
/// the refresh is asked for at `asked_at` and answered at `answered_at`.
pub open spec fn refreshed_with(
    session: AppView,
    listed: Vec<Branch>,
    asked_at: u64,
    answered_at: u64,
) -> AppView {
    session.perform(Control::Refresh, asked_at).0.resume(
        Response::LocalBranches(Ok(listed)),
        answered_at,
    ).0
}

/// A refresh leaves the list as the repository gave it and the selection in
/// it: where it was, if that is still a place in the list. A second refresh
/// with the same answer changes neither the list, nor the names on the
/// screen, nor the selection.
pub proof fn lemma_refresh_is_idempotent(
    session: AppView,
    listed: Vec<Branch>,
    first: (u64, u64),
    second: (u64, u64),
)
    requires
        session.wf(),
        !session.is_deaf(),
    ensures
        ({
            let once = refreshed_with(session, listed, first.0, first.1);
            let twice = refreshed_with(once, listed, second.0, second.1);
            &&& once.branches == listed.deep_view()
            &&& once.wf()
            &&& session.selected matches Some(at) ==> (at < once.branches.len() ==> once.selected
                == session.selected)
            &&& twice.branches == once.branches
            &&& decodable_names(twice.branches) == decodable_names(once.branches)
            &&& twice.selected == once.selected
        }),
{
}

/// A refresh that the repository could not answer leaves the list and the
/// selection as they were, and the error is shown.
pub proof fn lemma_failed_refresh_keeps_list(
    session: AppView,
    reason: String,
    asked_at: u64,
    answered_at: u64,
)
    requires
        session.wf(),
        !session.is_deaf(),
    ensures
        ({
            let after = session.perform(Control::Refresh, asked_at).0.resume(
                Response::LocalBranches(Err(reason)),
                answered_at,
            ).0;
            &&& after.branches == session.branches
            &&& after.selected == session.selected
            &&& after.status.status_type == OperationStatusType::Error
            &&& after.pending is Idle
        }),
{
}

/// A switch is refused when the repository says that the working tree has
/// changes in it: no checkout is asked for, nothing is asked at all, the
/// operation is over, and the status is the error that names both branches.
pub proof fn lemma_dirty_tree_refuses_switch(session: AppView, now: u64)
    requires
        session.pending matches PendingView::SwitchClean { branch, .. } && branch is Some,
    ensures
        ({
            let (after, request) = session.resume(Response::WorkingTreeClean(Ok(false)), now);
            &&& request is None
            &&& after == session.finished(after.status.message, OperationStatusType::Error, now)
            &&& session.pending matches PendingView::SwitchClean { branch, current }
                && after.status.message == spec_switch_failed(
                shown_name(branch),
                "Uncommitted local changes on branch "@ + current,
            )
        }),
{
}

/// A checkout is asked for in one situation only: the session was waiting to
/// hear whether the working tree is clean, and the repository said that it
/// is.
pub proof fn lemma_checkout_only_on_clean_tree(session: AppView, event: Event, now: u64)
    ensures
        session.step(event, now).1 matches Some(RequestView::Checkout { .. }) ==> {
            &&& session.pending is SwitchClean
            &&& event matches Event::Answer(Response::WorkingTreeClean(Ok(clean))) && clean
        },
{
}

/// In any run of events, from any session, each checkout that is asked for
/// answers to the repository having just called the working tree clean.
pub proof fn lemma_no_checkout_without_clean_tree(
    session: AppView,
    events: Seq<(Event, u64)>,
    at: int,
)
    requires
        0 <= at < events.len(),
        session.request_at(events, at) matches Some(RequestView::Checkout { .. }),
    ensures
        events[at].0 matches Event::Answer(Response::WorkingTreeClean(Ok(clean))) && clean,
        session.run(events.take(at)).pending is SwitchClean,
{
    lemma_checkout_only_on_clean_tree(session.run(events.take(at)), events[at].0, events[at].1);
}

/// The working tree is asked about in one situation only: a switch is under
/// way and the repository has just said where `HEAD` stands.
pub proof fn lemma_tree_checked_only_by_switch(session: AppView, event: Event, now: u64)
    ensures
        session.step(event, now).1 == Some(RequestView::IsWorkingTreeClean) ==> {
            &&& session.pending is SwitchHead
            &&& event matches Event::Answer(Response::Head(_))
        },
{
}

/// A fetch never asks about the working tree. The action asks for the fetch
/// or for nothing, and then waits for the fetch or for nothing; while the
/// session waits for a fetch, no event makes it ask for anything, and it
/// goes on waiting for the fetch or is done.
pub proof fn lemma_fetch_never_checks_tree(session: AppView, event: Event, now: u64)
    ensures
        ({
            let (begun, first) = session.perform(Control::Fetch, now);
            &&& first matches Some(request) ==> request is FetchRemoteFor
            &&& begun.pending == session.pending || begun.pending is Fetch
        }),
        session.pending is Fetch ==> {
            let (after, next) = session.step(event, now);
            &&& next is None
            &&& after.pending is Fetch || after.pending is Idle
        },
{
}

/// In any run of events that starts while a fetch is awaited, nothing is
/// asked of the repository for as long as the fetch is awaited.
pub proof fn lemma_fetch_asks_nothing_more(session: AppView, events: Seq<(Event, u64)>, at: int)
    requires
        0 <= at < events.len(),
        session.run(events.take(at)).pending is Fetch,
    ensures
        session.request_at(events, at) is None,
{
    lemma_fetch_never_checks_tree(session.run(events.take(at)), events[at].0, events[at].1);
}

/// A status is shown as it was set until it is more than
/// [`STATUS_TTL_MILLIS`] milliseconds old, and reads `Ready` from then on.
/// Looking twice at the same reading of the clock shows the same thing.
pub proof fn lemma_status_expires(
    message: Seq<char>,
    status_type: OperationStatusType,
    set_at: u64,
    now: u64,
)
    requires
        message.len() > 0,
    ensures
        ({
            let status = StatusView::set_at(message, status_type, set_at);
            let seen = status.observed_at(now);
            &&& status.observed_at(set_at) == status
            &&& now <= set_at + STATUS_TTL_MILLIS ==> seen == status && seen.text() == message
                && seen.status_type == status_type
            &&& now > set_at + STATUS_TTL_MILLIS ==> seen == StatusView::cleared_at(now)
                && seen.text() == "Ready"@ && seen.status_type == OperationStatusType::Info
            &&& seen.observed_at(now) == seen
        }),
{
}

/// Once the user has asked to leave, no key changes the session or asks
/// anything of the repository.
pub proof fn lemma_no_action_after_quit(session: AppView, action: Control, now: u64)
    requires
        session.exit,
    ensures
        session.perform(action, now) == (session, None::<RequestView>),
{
}

} // verus!
