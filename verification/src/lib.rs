//! A branch browser for a local repository, without the terminal and without
//! the repository.
//!
//! The crate holds everything such a browser decides: which branches it lists,
//! where the selection stands, what a key press means, when a branch switch
//! must be refused, and which message the user sees afterwards. Whatever
//! touches the outside world is handed to the caller as a [`Request`] and
//! comes back as a [`Response`]; the clock is a number of milliseconds that
//! the caller passes in.
//!
//! A session starts without branches. The first listing is asked for like
//! every later one, by a refresh, and a repository that cannot list its
//! branches is an error on the status line, not the end of the session.

pub mod git;
pub mod session;
pub mod text;
pub mod ui;

pub use git::backend::{Request, RequestView, Response};
pub use git::branch::{Branch, HeadRef};
pub use git::branch_manager::BranchManager;
pub use session::model::{AppView, PendingView};
pub use session::{App, BranchRow, Event};

pub use text::{from_char, join2, join3, join4};
pub use ui::controls::{Control, Controls, KeyCode, KeyEvent, KeyEventKind};
pub use ui::status::{OperationStatus, OperationStatusType, StatusView, STATUS_TTL_MILLIS};
