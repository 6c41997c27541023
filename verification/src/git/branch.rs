//! A local branch and the place where `HEAD` stands.

use vstd::prelude::*;

verus! {

/// The name that a branch can be addressed by: the text it was listed
/// under, unless there was none or it was empty.
pub open spec fn usable_name(listed: Option<String>) -> Option<Seq<char>> {
    match listed {
        Some(name) => if name@.len() > 0 {
            Some(name@)
        } else {
            None
        },
        None => None,
    }
}

/// The name under which a branch is shown in a message: its own, or
/// `unknown branch` where it has none.
pub open spec fn shown_name(name: Option<Seq<char>>) -> Seq<char> {
    match name {
        Some(text) => text,
        None => "unknown branch"@,
    }
}

/// A local branch. It is known by its name, and the name is all that is
/// needed to check it out or to fetch it. A branch whose name could not be
/// read as text has none, and nothing can be asked for it.
#[derive(Debug, PartialEq, Eq)]
pub struct Branch {
    name: Option<String>,
}

impl View for Branch {
    type V = Option<Seq<char>>;

    closed spec fn view(&self) -> Option<Seq<char>> {
        usable_name(self.name)
    }
}

impl DeepView for Branch {
    type V = Option<Seq<char>>;

    open spec fn deep_view(&self) -> Option<Seq<char>> {
        self@
    }
}

impl Clone for Branch {
    fn clone(&self) -> (copy: Self)
        ensures
            copy == *self,
    {
        match &self.name {
            Some(name) => Branch { name: Some(name.clone()) },
            None => Branch { name: None },
        }
    }
}

impl Branch {
    /// The branch that was listed under `name`; `None` stands for a name
    /// that is no valid text.
    pub fn new(name: Option<String>) -> (branch: Self)
        ensures
            branch@ == usable_name(name),
    {
        Branch { name }
    }

    /// The branch called `name`.
    pub fn named(name: &str) -> (branch: Self)
        ensures
            branch@ == (if name@.len() > 0 {
                Some(name@)
            } else {
                None::<Seq<char>>
            }),
    {
        Branch { name: Some(String::from_str(name)) }
    }

    /// A branch whose name could not be read.
    pub fn unnamed() -> (branch: Self)
        ensures
            branch@ is None,
    {
        Branch { name: None }
    }

    /// The name of the branch, if it has one. A name is never empty.
    pub fn name(&self) -> (name: Option<&str>)
        ensures
            match name {
                Some(text) => self@ == Some(text@) && text@.len() > 0,
                None => self@ is None,
            },
    {
        match &self.name {
            Some(text) => {
                if text.as_str().is_empty() {
                    None
                } else {
                    Some(text.as_str())
                }
            },
            None => None,
        }
    }

    /// The name under which the branch is shown in a message.
    pub fn display_name(&self) -> (text: String)
        ensures
            text@ == shown_name(self@),
    {
        match self.name() {
            Some(name) => String::from_str(name),
            None => String::from_str("unknown branch"),
        }
    }

    /// No branch has an empty name.
    pub proof fn lemma_name_is_not_empty(&self)
        ensures
            self@ matches Some(name) ==> name.len() > 0,
    {
    }
}

/// Where `HEAD` stands.
#[derive(Debug, PartialEq, Eq)]
pub enum HeadRef {
    /// On a branch, with the short name of the branch where that name is
    /// valid text.
    Branch(Option<String>),
    /// On a commit that no branch is checked out at, with the commit's
    /// identifier.
    Detached(String),
}

impl Clone for HeadRef {
    fn clone(&self) -> (copy: Self)
        ensures
            copy == *self,
    {
        match self {
            HeadRef::Branch(Some(name)) => HeadRef::Branch(Some(name.clone())),
            HeadRef::Branch(None) => HeadRef::Branch(None),
            HeadRef::Detached(commit) => HeadRef::Detached(commit.clone()),
        }
    }
}

impl HeadRef {
    pub open spec fn spec_label(self) -> Seq<char> {
        match self {
            HeadRef::Branch(Some(name)) => name@,
            HeadRef::Branch(None) => "HEAD"@,
            HeadRef::Detached(commit) => commit@,
        }
    }

    /// What stands for `HEAD` in a message: the branch's short name, `HEAD`
    /// for a branch without one, the commit's identifier otherwise.
    pub fn label(&self) -> (text: String)
        ensures
            text@ == self.spec_label(),
    {
        match self {
            HeadRef::Branch(Some(name)) => name.clone(),
            HeadRef::Branch(None) => String::from_str("HEAD"),
            HeadRef::Detached(commit) => commit.clone(),
        }
    }
}

} // verus!
