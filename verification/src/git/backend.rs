//! What the browser asks of the repository, and what it is told.
//!
//! The browser never touches a repository. It hands out a [`Request`], the
//! caller carries it out on whatever repository it has, and the outcome comes
//! back as the [`Response`] of the same kind. Failures come back as the text
//! of the error.

use vstd::prelude::*;

use crate::git::branch::{Branch, HeadRef};
use crate::text::{join2, join3};

verus! {

/// The only remote that is fetched from.
pub open spec fn spec_remote_name() -> Seq<char> {
    "origin"@
}

/// The full name of the local branch `name`.
pub open spec fn spec_branch_reference(name: Seq<char>) -> Seq<char> {
    "refs/heads/"@ + name
}

/// The refspec that brings the remote-tracking branch of `name` up to date,
/// by force, and nothing else.
pub open spec fn spec_fetch_refspec(name: Seq<char>) -> Seq<char> {
    "+refs/heads/"@ + name + ":refs/remotes/origin/"@ + name
}

/// The full name of the local branch `name`.
pub fn branch_reference(name: &str) -> (reference: String)
    ensures
        reference@ == spec_branch_reference(name@),
{
    join2("refs/heads/", name)
}

/// The refspec that fetches the branch `name` from its remote.
pub fn fetch_refspec(name: &str) -> (refspec: String)
    ensures
        refspec@ == spec_fetch_refspec(name@),
{
    let mut refspec = join3("+refs/heads/", name, ":refs/remotes/origin/");
    refspec.append(name);
    refspec
}

/// Something for the caller to do on the repository.
#[derive(Debug, PartialEq, Eq)]
pub enum Request {
    /// List the local branches, in any order.
    ListLocalBranches,
    /// Say where `HEAD` stands.
    CurrentHead,
    /// Say whether the working tree is free of changes: staged, unstaged and
    /// untracked.
    IsWorkingTreeClean,
    /// Point `HEAD` at `reference` and check it out.
    Checkout { branch: String, reference: String },
    /// Fetch `refspec` from `remote`, with or without the tags.
    FetchRemoteFor { branch: String, remote: String, refspec: String, download_tags: bool },
}

/// What a request holds.
pub enum RequestView {
    ListLocalBranches,
    CurrentHead,
    IsWorkingTreeClean,
    Checkout { branch: Seq<char>, reference: Seq<char> },
    FetchRemoteFor { branch: Seq<char>, remote: Seq<char>, refspec: Seq<char>, download_tags: bool },
}

impl RequestView {
    /// The request to check out the branch `name`.
    pub open spec fn checkout(name: Seq<char>) -> Self {
        RequestView::Checkout { branch: name, reference: spec_branch_reference(name) }
    }

    /// The request to fetch the branch `name`: from `origin`, its own
    /// remote-tracking branch alone, no tags.
    pub open spec fn fetch(name: Seq<char>) -> Self {
        RequestView::FetchRemoteFor {
            branch: name,
            remote: spec_remote_name(),
            refspec: spec_fetch_refspec(name),
            download_tags: false,
        }
    }
}

impl View for Request {
    type V = RequestView;

    open spec fn view(&self) -> RequestView {
        match self {
            Request::ListLocalBranches => RequestView::ListLocalBranches,
            Request::CurrentHead => RequestView::CurrentHead,
            Request::IsWorkingTreeClean => RequestView::IsWorkingTreeClean,
            Request::Checkout { branch, reference } => RequestView::Checkout {
                branch: branch@,
                reference: reference@,
            },
            Request::FetchRemoteFor { branch, remote, refspec, download_tags } => {
                RequestView::FetchRemoteFor {
                    branch: branch@,
                    remote: remote@,
                    refspec: refspec@,
                    download_tags: *download_tags,
                }
            },
        }
    }
}

impl Request {
    /// The request to check out the branch `name`.
    pub fn checkout(name: &str) -> (request: Self)
        ensures
            request@ == RequestView::checkout(name@),
    {
        Request::Checkout { branch: String::from_str(name), reference: branch_reference(name) }
    }

    /// The request to fetch the branch `name`.
    pub fn fetch(name: &str) -> (request: Self)
        ensures
            request@ == RequestView::fetch(name@),
    {
        Request::FetchRemoteFor {
            branch: String::from_str(name),
            remote: String::from_str("origin"),
            refspec: fetch_refspec(name),
            download_tags: false,
        }
    }
}

/// The outcome of a request.
#[derive(Debug, PartialEq, Eq)]
pub enum Response {
    /// The local branches, or why they could not be listed.
    LocalBranches(Result<Vec<Branch>, String>),
    /// Where `HEAD` stands, or why that could not be told.
    Head(Result<HeadRef, String>),
    /// Whether the working tree is clean, or why that could not be told.
    WorkingTreeClean(Result<bool, String>),
    /// That the checkout was done, or why it was not.
    CheckedOut(Result<(), String>),
    /// That the fetch was done, or why it was not.
    Fetched(Result<(), String>),
}

} // verus!
