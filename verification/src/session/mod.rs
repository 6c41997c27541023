//! The session: the list of branches, the selection, the status line and the
//! operation that is under way.
//!
//! A session never touches the repository. A key may make it hand out a
//! [`Request`]; the caller carries the request out and hands the outcome to
//! [`App::resume`], which may hand out the next one. While a request is out,
//! the session takes no keys.

pub mod laws;
pub mod messages;
pub mod model;

use vstd::prelude::*;

use crate::git::backend::{Request, RequestView, Response};
use crate::git::branch::{Branch, HeadRef};
use crate::git::branch_manager::{
    decodable_names,
    spec_current_or,
    unnamed_switch,
    BranchManager,
};
use crate::session::messages::{
    fetch_failed,
    fetched,
    fetching,
    no_branch_selected,
    refresh_failed,
    refreshed,
    refreshing,
    spec_title,
    switch_failed,
    switched,
    switching,
    title,
};
use crate::session::model::{cursor_clamped, AppView, PendingView};
use crate::ui::controls::{
    help_text,
    resolve,
    standard_table,
    Control,
    Controls,
    KeyCode,
    KeyEvent,
    KeyEventKind,
};
use crate::ui::status::{OperationStatus, OperationStatusType};

verus! {

/// What a request that may or may not be there holds.
pub open spec fn asked(request: Option<Request>) -> Option<RequestView> {
    match request {
        Some(request) => Some(request@),
        None => None,
    }
}

/// One line of the list on the screen.
#[derive(Debug, PartialEq, Eq)]
pub struct BranchRow {
    /// The name of the branch.
    pub name: String,
    /// Whether `HEAD` is on this branch.
    pub is_current: bool,
    /// Whether the line is the second, the fourth and so on, which are
    /// drawn on another ground than the lines between them.
    pub is_alternate: bool,
}

impl BranchRow {
    /// Whether the row is the one that stands at place `at` for the branch
    /// `name` while `HEAD` is called `current`.
    pub open spec fn shows(self, name: Seq<char>, current: Seq<char>, at: int) -> bool {
        &&& self.name@ == name
        &&& self.is_current == (name == current)
        &&& self.is_alternate == (at % 2 == 1)
    }
}

/// Something that happens to a session.
#[derive(Debug, PartialEq, Eq)]
pub enum Event {
    /// The keyboard reports a key.
    Key(KeyEvent),
    /// The repository answers the request that is out.
    Answer(Response),
}

/// What the session is waiting for. See [`PendingView`].
enum Pending {
    Idle,
    Refresh,
    SwitchHead { branch: Branch },
    SwitchClean { branch: Branch, current: String },
    SwitchCheckout { name: String },
    Fetch { name: String },
}

impl View for Pending {
    type V = PendingView;

    closed spec fn view(&self) -> PendingView {
        match self {
            Pending::Idle => PendingView::Idle,
            Pending::Refresh => PendingView::Refresh,
            Pending::SwitchHead { branch } => PendingView::SwitchHead { branch: branch@ },
            Pending::SwitchClean { branch, current } => PendingView::SwitchClean {
                branch: branch@,
                current: current@,
            },
            Pending::SwitchCheckout { name } => PendingView::SwitchCheckout { name: name@ },
            Pending::Fetch { name } => PendingView::Fetch { name: name@ },
        }
    }
}

/// The key table of a session. It is the browser's, from start to end.
struct KeyTable {
    controls: Controls,
}

impl KeyTable {
    #[verifier::type_invariant]
    spec fn is_standard(self) -> bool {
        self.controls@ == standard_table()
    }

    fn new() -> Self {
        KeyTable { controls: Controls::new() }
    }

    /// The action that `code` asks for.
    fn handle_key(&self, code: KeyCode) -> (action: Option<Control>)
        ensures
            action == resolve(standard_table(), code),
    {
        proof {
            use_type_invariant(self);
        }
        self.controls.handle_key(code)
    }

    /// The help line.
    fn format_help(&self) -> (text: String)
        ensures
            text@ == help_text(standard_table()),
    {
        proof {
            use_type_invariant(self);
        }
        self.controls.format_help()
    }
}

/// A session of the branch browser.
pub struct App {
    branch_manager: BranchManager,
    controls: KeyTable,
    selected: Option<usize>,
    exit: bool,
    operation_status: OperationStatus,
    pending: Pending,
}

impl View for App {
    type V = AppView;

    closed spec fn view(&self) -> AppView {
        AppView {
            branches: self.branch_manager@,
            selected: match self.selected {
                Some(at) => Some(at as nat),
                None => None,
            },
            exit: self.exit,
            status: self.operation_status@,
            pending: self.pending@,
        }
    }
}

impl App {
    /// The session at its start. It has no branches yet: the first listing
    /// comes in by a refresh like every later one.
    pub fn new() -> (app: Self)
        ensures
            app@ == AppView::fresh(),
            app@.wf(),
    {
        let app = App {
            branch_manager: BranchManager::new(),
            controls: KeyTable::new(),
            selected: None,
            exit: false,
            operation_status: OperationStatus::default(),
            pending: Pending::Idle,
        };
        app
    }

    /// The place of the selected branch in the list.
    pub fn selected(&self) -> (at: Option<usize>)
        ensures
            match at {
                Some(index) => self@.selected == Some(index as nat),
                None => self@.selected is None,
            },
    {
        self.selected
    }

    /// Whether the user has asked to leave.
    pub fn should_exit(&self) -> (exit: bool)
        ensures
            exit == self@.exit,
    {
        self.exit
    }

    /// Whether a request is out and its answer has not come in.
    pub fn is_busy(&self) -> (busy: bool)
        ensures
            busy == !(self@.pending is Idle),
    {
        match self.pending {
            Pending::Idle => false,
            _ => true,
        }
    }

    /// The list of branches.
    pub fn branch_manager(&self) -> (manager: &BranchManager)
        ensures
            manager@ == self@.branches,
    {
        &self.branch_manager
    }

    /// The names of the branches for the screen, in the order of the list.
    pub fn branch_names(&self) -> (names: Vec<String>)
        ensures
            names.deep_view() == decodable_names(self@.branches),
    {
        self.branch_manager.get_all_local_branch_names()
    }

    /// The help line for the foot of the screen.
    pub fn help_text(&self) -> (text: String)
        ensures
            text@ == help_text(standard_table()),
    {
        self.controls.format_help()
    }

    /// The status as it was last set, whether or not it has expired.
    pub fn operation_status(&self) -> (status: &OperationStatus)
        ensures
            status@ == self@.status,
    {
        &self.operation_status
    }

    /// The title for the head of the screen, given what the repository said
    /// of `HEAD`: the name of the program and what `HEAD` is called, or
    /// `ERROR` where the repository could not tell.
    pub fn title(&self, head: &Result<HeadRef, String>) -> (text: String)
        ensures
            text@ == spec_title(spec_current_or(*head, "ERROR"@)),
    {
        let current = self.branch_manager.current_branch_or(head, "ERROR");
        title(current.as_str())
    }

    /// The lines of the list for the screen, given what the repository said
    /// of `HEAD`: one for each branch with a name, in the order of the list.
    /// A line is marked as current where its name is what `HEAD` is called;
    /// where the repository could not tell, `HEAD` counts as called `None`.
    pub fn rows(&self, head: &Result<HeadRef, String>) -> (rows: Vec<BranchRow>)
        ensures
            rows@.len() == decodable_names(self@.branches).len(),
            forall|i: int|
                0 <= i < rows@.len() ==> (#[trigger] rows@[i]).shows(
                    decodable_names(self@.branches)[i],
                    spec_current_or(*head, "None"@),
                    i,
                ),
    {
        let current = self.branch_manager.current_branch_or(head, "None");
        let names = self.branch_manager.get_all_local_branch_names();
        let mut rows: Vec<BranchRow> = Vec::new();
        let mut i: usize = 0;
        while i < names.len()
            invariant
                i <= names.len(),
                rows@.len() == i,
                names.deep_view() == decodable_names(self@.branches),
                current@ == spec_current_or(*head, "None"@),
                forall|k: int|
                    0 <= k < i ==> (#[trigger] rows@[k]).shows(
                        decodable_names(self@.branches)[k],
                        spec_current_or(*head, "None"@),
                        k,
                    ),
            decreases names.len() - i,
        {
            proof {
                assert(names.deep_view()[i as int] == names@[i as int]@);
            }
            let name = names[i].clone();
            let is_current = name == current;
            rows.push(BranchRow { name, is_current, is_alternate: i % 2 == 1 });
            i += 1;
        }
        rows
    }

    /// The message and kind to show at `now`. A message that has expired is
    /// cleared first; nothing else changes.
    pub fn status(&mut self, now: u64) -> (shown: (String, OperationStatusType))
        ensures
            final(self)@ == (AppView { status: old(self)@.status.observed_at(now), ..old(self)@ }),
            shown.0@ == final(self)@.status.text(),
            shown.1 == final(self)@.status.status_type,
    {
        self.operation_status.current_or_default(now)
    }

    /// The status line to draw at `now`, with its kind. A message that has
    /// expired is cleared first; nothing else changes.
    pub fn status_line(&mut self, now: u64) -> (shown: (String, OperationStatusType))
        ensures
            final(self)@ == (AppView { status: old(self)@.status.observed_at(now), ..old(self)@ }),
            shown.0@ == final(self)@.status.line(),
            shown.1 == final(self)@.status.status_type,
    {
        self.operation_status.render_line(now)
    }

    /// Puts a message on the status line.
    pub fn set_status(&mut self, message: &str, status_type: OperationStatusType, now: u64)
        ensures
            final(self)@ == old(self)@.with_status(message@, status_type, now),
    {
        self.operation_status.set(String::from_str(message), status_type, now);
    }

    /// Moves the selection down by one. At the last branch it stays.
    pub fn select_next(&mut self)
        ensures
            final(self)@ == old(self)@.select_next(),
            final(self)@.wf(),
    {
        let len = self.branch_manager.len();
        self.selected = if len == 0 {
            None
        } else {
            match self.selected {
                None => Some(0),
                Some(at) => if at < len - 1 {
                    Some(at + 1)
                } else {
                    Some(len - 1)
                },
            }
        };
    }

    /// Moves the selection up by one. At the first branch it stays.
    pub fn select_previous(&mut self)
        ensures
            final(self)@ == old(self)@.select_previous(),
            final(self)@.wf(),
    {
        let len = self.branch_manager.len();
        self.selected = if len == 0 {
            None
        } else {
            match self.selected {
                None => Some(0),
                Some(at) => if at == 0 {
                    Some(0)
                } else if at - 1 < len {
                    Some(at - 1)
                } else {
                    Some(len - 1)
                },
            }
        };
    }

    /// Brings the selection back into the list after the list has changed.
    fn clamp_selection(&mut self)
        ensures
            final(self)@ == (AppView {
                selected: cursor_clamped(old(self)@.selected, old(self)@.branches.len()),
                ..old(self)@
            }),
    {
        let len = self.branch_manager.len();
        self.selected = if len == 0 {
            None
        } else {
            match self.selected {
                None => Some(0),
                Some(at) => if at < len {
                    Some(at)
                } else {
                    Some(len - 1)
                },
            }
        };
    }

    /// A copy of the selected branch.
    fn selected_branch(&self) -> (found: Option<Branch>)
        ensures
            match found {
                Some(branch) => self@.selected_branch() == Some(branch@),
                None => self@.selected_branch() is None,
            },
    {
        match self.selected {
            Some(at) => match self.branch_manager.branch_at(at) {
                Some(branch) => Some(branch.clone()),
                None => None,
            },
            None => None,
        }
    }

    /// Begins a switch to the selected branch.
    ///
    /// Without a selected branch the status says so and nothing is asked.
    /// For a branch without a name the status gives the error and nothing is
    /// asked. Otherwise the status says that the switch is under way, and
    /// the first question goes out: where `HEAD` stands. The question about
    /// the working tree follows in [`App::resume`], and the checkout only
    /// after the tree was called clean.
    pub fn switch_branch(&mut self, now: u64) -> (request: Option<Request>)
        ensures
            final(self)@ == old(self)@.switch_branch(now).0,
            asked(request) == old(self)@.switch_branch(now).1,
    {
        match self.selected_branch() {
            None => {
                self.operation_status.set(no_branch_selected(), OperationStatusType::Info, now);
                None
            },
            Some(branch) => {
                let name = branch.display_name();
                match branch.name() {
                    None => {
                        let reason = unnamed_switch();
                        self.operation_status.set(
                            switch_failed(name.as_str(), reason.as_str()),
                            OperationStatusType::Error,
                            now,
                        );
                        None
                    },
                    Some(_) => {
                        self.operation_status.set(
                            switching(name.as_str()),
                            OperationStatusType::Info,
                            now,
                        );
                        self.pending = Pending::SwitchHead { branch };
                        Some(Request::CurrentHead)
                    },
                }
            },
        }
    }

    /// Begins a fetch of the selected branch.
    ///
    /// Without a selected branch the status says so and nothing is asked.
    /// For a branch without a name the status gives the error and nothing is
    /// asked. Otherwise the status says that the fetch is under way and the
    /// fetch is asked for. The working tree is never asked about.
    pub fn fetch_branch(&mut self, now: u64) -> (request: Option<Request>)
        ensures
            final(self)@ == old(self)@.fetch_branch(now).0,
            asked(request) == old(self)@.fetch_branch(now).1,
    {
        match self.selected_branch() {
            None => {
                self.operation_status.set(no_branch_selected(), OperationStatusType::Info, now);
                None
            },
            Some(branch) => {
                let name = branch.display_name();
                match self.branch_manager.fetch_on_branch(&branch) {
                    Err(reason) => {
                        self.operation_status.set(
                            fetch_failed(name.as_str(), reason.as_str()),
                            OperationStatusType::Error,
                            now,
                        );
                        None
                    },
                    Ok(request) => {
                        self.operation_status.set(
                            fetching(name.as_str()),
                            OperationStatusType::Info,
                            now,
                        );
                        self.pending = Pending::Fetch { name };
                        Some(request)
                    },
                }
            },
        }
    }

    /// Begins a refresh: the status says so, and the branches are asked for.
    pub fn refresh_branches(&mut self, now: u64) -> (request: Option<Request>)
        ensures
            final(self)@ == old(self)@.refresh_branches(now).0,
            asked(request) == old(self)@.refresh_branches(now).1,
    {
        self.operation_status.set(refreshing(), OperationStatusType::Info, now);
        self.pending = Pending::Refresh;
        Some(Request::ListLocalBranches)
    }

    /// Acts on `action` at `now`. A session that has been left, or that is
    /// waiting for the repository, does nothing.
    pub fn perform(&mut self, action: Control, now: u64) -> (request: Option<Request>)
        ensures
            final(self)@ == old(self)@.perform(action, now).0,
            asked(request) == old(self)@.perform(action, now).1,
            old(self)@.wf() ==> final(self)@.wf(),
    {
        if self.exit || self.is_busy() {
            return None;
        }
        match action {
            Control::Up => {
                self.select_previous();
                None
            },
            Control::Down => {
                self.select_next();
                None
            },
            Control::Quit => {
                self.exit = true;
                None
            },
            Control::Switch => self.switch_branch(now),
            Control::Fetch => self.fetch_branch(now),
            Control::Refresh => self.refresh_branches(now),
        }
    }

    /// Acts on a key at `now`. Only a press counts, and only of a key that
    /// stands for an action.
    pub fn handle_key(&mut self, key: KeyEvent, now: u64) -> (request: Option<Request>)
        ensures
            final(self)@ == old(self)@.handle_key(key, now).0,
            asked(request) == old(self)@.handle_key(key, now).1,
            old(self)@.wf() ==> final(self)@.wf(),
    {
        match key.kind {
            KeyEventKind::Press => match self.controls.handle_key(key.code) {
                Some(action) => self.perform(action, now),
                None => None,
            },
            _ => None,
        }
    }

    /// Takes in the answer of the repository at `now`, and says what to ask
    /// next, if anything. An answer that the session is not waiting for
    /// changes nothing.
    pub fn resume(&mut self, response: Response, now: u64) -> (request: Option<Request>)
        ensures
            final(self)@ == old(self)@.resume(response, now).0,
            asked(request) == old(self)@.resume(response, now).1,
            old(self)@.wf() ==> final(self)@.wf(),
    {
        let mut pending = Pending::Idle;
        std::mem::swap(&mut self.pending, &mut pending);
        match (pending, response) {
            (Pending::Refresh, Response::LocalBranches(listed)) => {
                match self.branch_manager.refresh_branches(listed) {
                    Ok(_) => {
                        self.operation_status.set(refreshed(), OperationStatusType::Success, now);
                    },
                    Err(reason) => {
                        self.operation_status.set(
                            refresh_failed(reason.as_str()),
                            OperationStatusType::Error,
                            now,
                        );
                    },
                }
                self.clamp_selection();
                None
            },
            (Pending::SwitchHead { branch }, Response::Head(head)) => {
                let current = self.branch_manager.current_branch_or(&head, "HEAD");
                self.pending = Pending::SwitchClean { branch, current };
                Some(Request::IsWorkingTreeClean)
            },
            (Pending::SwitchClean { branch, current }, Response::WorkingTreeClean(clean)) => {
                let name = branch.display_name();
                match self.branch_manager.switch_to_branch(&branch, current.as_str(), &clean) {
                    Ok(request) => {
                        self.pending = Pending::SwitchCheckout { name };
                        Some(request)
                    },
                    Err(reason) => {
                        self.operation_status.set(
                            switch_failed(name.as_str(), reason.as_str()),
                            OperationStatusType::Error,
                            now,
                        );
                        None
                    },
                }
            },
            (Pending::SwitchCheckout { name }, Response::CheckedOut(done)) => {
                match done {
                    Ok(_) => {
                        self.operation_status.set(
                            switched(name.as_str()),
                            OperationStatusType::Success,
                            now,
                        );
                    },
                    Err(reason) => {
                        self.operation_status.set(
                            switch_failed(name.as_str(), reason.as_str()),
                            OperationStatusType::Error,
                            now,
                        );
                    },
                }
                None
            },
            (Pending::Fetch { name }, Response::Fetched(done)) => {
                match done {
                    Ok(_) => {
                        self.operation_status.set(
                            fetched(name.as_str()),
                            OperationStatusType::Success,
                            now,
                        );
                    },
                    Err(reason) => {
                        self.operation_status.set(
                            fetch_failed(name.as_str(), reason.as_str()),
                            OperationStatusType::Error,
                            now,
                        );
                    },
                }
                None
            },
            (unanswered, _) => {
                self.pending = unanswered;
                None
            },
        }
    }

    /// Acts on an event at `now`: a key or an answer of the repository.
    pub fn step(&mut self, event: Event, now: u64) -> (request: Option<Request>)
        ensures
            final(self)@ == old(self)@.step(event, now).0,
            asked(request) == old(self)@.step(event, now).1,
            old(self)@.wf() ==> final(self)@.wf(),
    {
        match event {
            Event::Key(key) => self.handle_key(key, now),
            Event::Answer(response) => self.resume(response, now),
        }
    }
}

} // verus!
