//! The session as a state machine: what it holds, and what each key and each
//! answer of the repository makes of it.
//!
//! Everything here is specification. The executable session in the parent
//! module is proved to do exactly what these functions say.

use vstd::prelude::*;

use crate::git::backend::{RequestView, Response};
use crate::git::branch::shown_name;
use crate::git::branch_manager::{
    fetch_decision,
    spec_current_or,
    spec_unnamed_switch,
    switch_decision,
};
use crate::session::Event;
use crate::session::messages::{
    spec_fetch_failed,
    spec_fetched,
    spec_fetching,
    spec_no_branch_selected,
    spec_refresh_failed,
    spec_refreshed,
    spec_refreshing,
    spec_switch_failed,
    spec_switched,
    spec_switching,
};
use crate::ui::controls::{resolve, standard_table, Control, KeyEvent, KeyEventKind};
use crate::ui::status::{OperationStatusType, StatusView};

verus! {

/// Whether `cursor` is a selection that a list of `len` branches can have:
/// none where the list is empty, a place in the list where it is not.
pub open spec fn cursor_in_range(cursor: Option<nat>, len: nat) -> bool {
    match cursor {
        None => len == 0,
        Some(at) => at < len,
    }
}

/// `cursor` brought into a list of `len` branches: none where the list is
/// empty, the last place where it pointed behind the list, the first place
/// where there was none.
pub open spec fn cursor_clamped(cursor: Option<nat>, len: nat) -> Option<nat> {
    if len == 0 {
        None
    } else {
        match cursor {
            None => Some(0),
            Some(at) => if at < len {
                Some(at)
            } else {
                Some((len - 1) as nat)
            },
        }
    }
}

/// The selection one place further down, held at the last place.
pub open spec fn cursor_after_next(cursor: Option<nat>, len: nat) -> Option<nat> {
    match cursor {
        None => cursor_clamped(None, len),
        Some(at) => cursor_clamped(Some(at + 1), len),
    }
}

/// The selection one place further up, held at the first place.
pub open spec fn cursor_after_previous(cursor: Option<nat>, len: nat) -> Option<nat> {
    match cursor {
        None => cursor_clamped(None, len),
        Some(at) => if at == 0 {
            cursor_clamped(Some(0), len)
        } else {
            cursor_clamped(Some((at - 1) as nat), len)
        },
    }
}

/// What the session is waiting for.
pub enum PendingView {
    /// Nothing: the next key is acted on.
    Idle,
    /// The list of branches, asked for by a refresh.
    Refresh,
    /// Where `HEAD` stands, asked for by a switch to `branch`.
    SwitchHead { branch: Option<Seq<char>> },
    /// Whether the working tree is clean, asked for by a switch to `branch`
    /// while `HEAD` was called `current`.
    SwitchClean { branch: Option<Seq<char>>, current: Seq<char> },
    /// The outcome of the checkout of the branch shown as `name`.
    SwitchCheckout { name: Seq<char> },
    /// The outcome of the fetch of the branch shown as `name`.
    Fetch { name: Seq<char> },
}

/// What a session holds.
pub struct AppView {
    /// The branches as last listed, each with its name if it has one.
    pub branches: Seq<Option<Seq<char>>>,
    /// The place of the selected branch in the list.
    pub selected: Option<nat>,
    /// Whether the user has asked to leave.
    pub exit: bool,
    /// The outcome of the last operation.
    pub status: StatusView,
    /// What the session is waiting for.
    pub pending: PendingView,
}

impl AppView {
    /// The session at its start: no branches and so no selection, no
    /// message, nothing under way.
    pub open spec fn fresh() -> Self {
        AppView {
            branches: Seq::empty(),
            selected: None,
            exit: false,
            status: StatusView::cleared_at(0),
            pending: PendingView::Idle,
        }
    }

    /// The validity of a session: the selection is a place in the list, or
    /// none where the list is empty.
    pub open spec fn wf(self) -> bool {
        cursor_in_range(self.selected, self.branches.len())
    }

    /// The session with a new status, set at `now`.
    pub open spec fn with_status(
        self,
        message: Seq<char>,
        status_type: OperationStatusType,
        now: u64,
    ) -> Self {
        AppView { status: StatusView::set_at(message, status_type, now), ..self }
    }

    /// The session waiting for nothing, with a new status set at `now`.
    pub open spec fn finished(
        self,
        message: Seq<char>,
        status_type: OperationStatusType,
        now: u64,
    ) -> Self {
        AppView { pending: PendingView::Idle, ..self.with_status(message, status_type, now) }
    }

    /// The selected branch: none where nothing is selected or the selection
    /// points behind the list.
    pub open spec fn selected_branch(self) -> Option<Option<Seq<char>>> {
        match self.selected {
            Some(at) => if at < self.branches.len() {
                Some(self.branches[at as int])
            } else {
                None
            },
            None => None,
        }
    }

    /// The selection moves down by one and stops at the last branch.
    pub open spec fn select_next(self) -> Self {
        AppView { selected: cursor_after_next(self.selected, self.branches.len()), ..self }
    }

    /// The selection moves up by one and stops at the first branch.
    pub open spec fn select_previous(self) -> Self {
        AppView { selected: cursor_after_previous(self.selected, self.branches.len()), ..self }
    }

    /// The user has asked to leave.
    pub open spec fn quit(self) -> Self {
        AppView { exit: true, ..self }
    }

    /// A switch begins. Without a selected branch it ends at once, and so it
    /// does for a branch without a name; otherwise the session says what it
    /// is doing and asks where `HEAD` stands.
    pub open spec fn switch_branch(self, now: u64) -> (Self, Option<RequestView>) {
        match self.selected_branch() {
            None => (
                self.with_status(spec_no_branch_selected(), OperationStatusType::Info, now),
                None,
            ),
            Some(branch) => match branch {
                None => (
                    self.with_status(
                        spec_switch_failed(shown_name(branch), spec_unnamed_switch()),
                        OperationStatusType::Error,
                        now,
                    ),
                    None,
                ),
                Some(_) => (
                    AppView {
                        pending: PendingView::SwitchHead { branch },
                        ..self.with_status(
                            spec_switching(shown_name(branch)),
                            OperationStatusType::Info,
                            now,
                        )
                    },
                    Some(RequestView::CurrentHead),
                ),
            },
        }
    }

    /// A fetch begins. Without a selected branch it ends at once, and so it
    /// does for a branch without a name; otherwise the session says what it
    /// is doing and asks for the fetch.
    pub open spec fn fetch_branch(self, now: u64) -> (Self, Option<RequestView>) {
        match self.selected_branch() {
            None => (
                self.with_status(spec_no_branch_selected(), OperationStatusType::Info, now),
                None,
            ),
            Some(branch) => match fetch_decision(branch) {
                Err(reason) => (
                    self.with_status(
                        spec_fetch_failed(shown_name(branch), reason),
                        OperationStatusType::Error,
                        now,
                    ),
                    None,
                ),
                Ok(request) => (
                    AppView {
                        pending: PendingView::Fetch { name: shown_name(branch) },
                        ..self.with_status(
                            spec_fetching(shown_name(branch)),
                            OperationStatusType::Info,
                            now,
                        )
                    },
                    Some(request),
                ),
            },
        }
    }

    /// A refresh begins: the session says so and asks for the branches.
    pub open spec fn refresh_branches(self, now: u64) -> (Self, Option<RequestView>) {
        (
            AppView {
                pending: PendingView::Refresh,
                ..self.with_status(spec_refreshing(), OperationStatusType::Info, now)
            },
            Some(RequestView::ListLocalBranches),
        )
    }

    /// Whether the session takes no action: it has been left, or it is
    /// waiting for the repository.
    pub open spec fn is_deaf(self) -> bool {
        self.exit || !(self.pending is Idle)
    }

    /// What `action` makes of the session at `now`, and what is asked of the
    /// repository. A session that takes no action stays as it is.
    pub open spec fn perform(self, action: Control, now: u64) -> (Self, Option<RequestView>) {
        if self.is_deaf() {
            (self, None)
        } else {
            match action {
                Control::Up => (self.select_previous(), None),
                Control::Down => (self.select_next(), None),
                Control::Quit => (self.quit(), None),
                Control::Switch => self.switch_branch(now),
                Control::Fetch => self.fetch_branch(now),
                Control::Refresh => self.refresh_branches(now),
            }
        }
    }

    /// What a key makes of the session at `now`. Only a press counts, and
    /// only of a key that the browser's table knows.
    pub open spec fn handle_key(self, key: KeyEvent, now: u64) -> (Self, Option<RequestView>) {
        if key.kind != KeyEventKind::Press {
            (self, None)
        } else {
            match resolve(standard_table(), key.code) {
                Some(action) => self.perform(action, now),
                None => (self, None),
            }
        }
    }

    /// Whether `response` is the answer that the session is waiting for.
    pub open spec fn awaits(self, response: Response) -> bool {
        match (self.pending, response) {
            (PendingView::Refresh, Response::LocalBranches(_)) => true,
            (PendingView::SwitchHead { .. }, Response::Head(_)) => true,
            (PendingView::SwitchClean { .. }, Response::WorkingTreeClean(_)) => true,
            (PendingView::SwitchCheckout { .. }, Response::CheckedOut(_)) => true,
            (PendingView::Fetch { .. }, Response::Fetched(_)) => true,
            _ => false,
        }
    }

    /// What an answer of the repository makes of the session at `now`, and
    /// what is asked next. An answer that the session is not waiting for
    /// changes nothing.
    pub open spec fn resume(self, response: Response, now: u64) -> (Self, Option<RequestView>) {
        match (self.pending, response) {
            (PendingView::Refresh, Response::LocalBranches(Ok(listed))) => {
                let branches = listed.deep_view();
                (
                    AppView {
                        branches,
                        selected: cursor_clamped(self.selected, branches.len()),
                        ..self.finished(spec_refreshed(), OperationStatusType::Success, now)
                    },
                    None,
                )
            },
            (PendingView::Refresh, Response::LocalBranches(Err(reason))) => (
                AppView {
                    selected: cursor_clamped(self.selected, self.branches.len()),
                    ..self.finished(spec_refresh_failed(reason@), OperationStatusType::Error, now)
                },
                None,
            ),
            (PendingView::SwitchHead { branch }, Response::Head(head)) => (
                AppView {
                    pending: PendingView::SwitchClean {
                        branch,
                        current: spec_current_or(head, "HEAD"@),
                    },
                    ..self
                },
                Some(RequestView::IsWorkingTreeClean),
            ),
            (PendingView::SwitchClean { branch, current }, Response::WorkingTreeClean(clean)) => {
                match switch_decision(branch, current, clean) {
                    Ok(request) => (
                        AppView {
                            pending: PendingView::SwitchCheckout { name: shown_name(branch) },
                            ..self
                        },
                        Some(request),
                    ),
                    Err(reason) => (
                        self.finished(
                            spec_switch_failed(shown_name(branch), reason),
                            OperationStatusType::Error,
                            now,
                        ),
                        None,
                    ),
                }
            },
            (PendingView::SwitchCheckout { name }, Response::CheckedOut(Ok(_))) => (
                self.finished(spec_switched(name), OperationStatusType::Success, now),
                None,
            ),
            (PendingView::SwitchCheckout { name }, Response::CheckedOut(Err(reason))) => (
                self.finished(spec_switch_failed(name, reason@), OperationStatusType::Error, now),
                None,
            ),
            (PendingView::Fetch { name }, Response::Fetched(Ok(_))) => (
                self.finished(spec_fetched(name), OperationStatusType::Success, now),
                None,
            ),
            (PendingView::Fetch { name }, Response::Fetched(Err(reason))) => (
                self.finished(spec_fetch_failed(name, reason@), OperationStatusType::Error, now),
                None,
            ),
            _ => (self, None),
        }
    }

    /// What an event makes of the session at `now`, and what is asked of the
    /// repository.
    pub open spec fn step(self, event: Event, now: u64) -> (Self, Option<RequestView>) {
        match event {
            Event::Key(key) => self.handle_key(key, now),
            Event::Answer(response) => self.resume(response, now),
        }
    }

    /// The session after a run of events, each with the reading of the clock
    /// at which it came.
    pub open spec fn run(self, events: Seq<(Event, u64)>) -> Self
        decreases events.len(),
    {
        if events.len() == 0 {
            self
        } else {
            self.run(events.drop_last()).step(events.last().0, events.last().1).0
        }
    }

    /// What the session asks of the repository on the event at place `at` of
    /// a run.
    pub open spec fn request_at(self, events: Seq<(Event, u64)>, at: int) -> Option<RequestView> {
        self.run(events.take(at)).step(events[at].0, events[at].1).1
    }

    /// The session after a run of actions, all at `now`.
    pub open spec fn after_actions(self, actions: Seq<Control>, now: u64) -> Self
        decreases actions.len(),
    {
        if actions.len() == 0 {
            self
        } else {
            self.after_actions(actions.drop_last(), now).perform(actions.last(), now).0
        }
    }
}

} // verus!
