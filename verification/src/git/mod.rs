//! The repository as the browser knows it: branches, `HEAD`, and the
//! requests that go out to it.

pub mod backend;
pub mod branch;
pub mod branch_manager;
