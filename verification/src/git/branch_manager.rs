//! The list of local branches, and the rules for switching to one and for
//! fetching one.

use vstd::prelude::*;

use crate::git::backend::{Request, RequestView};
use crate::git::branch::{Branch, HeadRef};
use crate::text::{join2, text_result};

verus! {

/// The names in `listed`, in its order, without the entries that have none.
pub open spec fn decodable_names(listed: Seq<Option<Seq<char>>>) -> Seq<Seq<char>>
    decreases listed.len(),
{
    if listed.len() == 0 {
        Seq::empty()
    } else {
        let before = decodable_names(listed.drop_last());
        match listed.last() {
            Some(name) => before.push(name),
            None => before,
        }
    }
}

/// Whether no name stands twice in `listed`.
pub open spec fn has_distinct_names(listed: Seq<Option<Seq<char>>>) -> bool {
    forall|i: int, j: int|
        0 <= i < j < listed.len() && listed[i] is Some ==> listed[i] != listed[j]
}

/// Every name of `decodable_names` is the name of a branch of the list, every
/// branch with a name has its name there, and where the list has no name
/// twice, the names have none twice either.
pub proof fn lemma_names_come_from_the_list(listed: Seq<Option<Seq<char>>>)
    ensures
        forall|k: int|
            0 <= k < decodable_names(listed).len() ==> listed.contains(
                Some(#[trigger] decodable_names(listed)[k]),
            ),
        forall|i: int|
            0 <= i < listed.len() && listed[i] is Some ==> decodable_names(listed).contains(
                (#[trigger] listed[i])->0,
            ),
        has_distinct_names(listed) ==> decodable_names(listed).no_duplicates(),
    decreases listed.len(),
{
    if listed.len() > 0 {
        let before = listed.drop_last();
        let names = decodable_names(listed);
        let earlier = decodable_names(before);
        lemma_names_come_from_the_list(before);
        assert forall|k: int| 0 <= k < names.len() implies listed.contains(
            Some(#[trigger] names[k]),
        ) by {
            if k < earlier.len() {
                assert(names[k] == earlier[k]);
                let at = choose|at: int| 0 <= at < before.len() && before[at] == Some(earlier[k]);
                assert(listed[at] == before[at]);
            } else {
                assert(listed[listed.len() - 1] == Some(names[k]));
            }
        }
        assert forall|i: int| 0 <= i < listed.len() && listed[i] is Some implies names.contains(
            (#[trigger] listed[i])->0,
        ) by {
            if i < before.len() {
                assert(before[i] == listed[i]);
                let k = choose|k: int| 0 <= k < earlier.len() && earlier[k] == before[i]->0;
                assert(names[k] == earlier[k]);
            } else {
                assert(names[names.len() - 1] == listed[i]->0);
            }
        }
        if has_distinct_names(listed) {
            assert forall|i: int, j: int|
                0 <= i < j < before.len() && before[i] is Some implies before[i] != before[j] by {
                assert(before[i] == listed[i] && before[j] == listed[j]);
            }
            assert forall|a: int, b: int| 0 <= a < names.len() && 0 <= b < names.len() && a
                != b implies names[a] != names[b] by {
                if a < earlier.len() && b < earlier.len() {
                    assert(names[a] == earlier[a] && names[b] == earlier[b]);
                } else {
                    let old_one = if a < earlier.len() {
                        a
                    } else {
                        b
                    };
                    assert(names[old_one] == earlier[old_one]);
                    let at = choose|at: int|
                        0 <= at < before.len() && before[at] == Some(earlier[old_one]);
                    assert(listed[at] == before[at]);
                    assert(listed[at] != listed[listed.len() - 1]);
                }
            }
        }
    }
}

/// What a decision on a request holds.
pub open spec fn decision_view(decision: Result<Request, String>) -> Result<RequestView, Seq<char>> {
    match decision {
        Ok(request) => Ok(request@),
        Err(reason) => Err(reason@),
    }
}

/// Where `HEAD` stands, as text, or the error of the repository unchanged.
pub open spec fn current_branch_name(head: Result<HeadRef, String>) -> Result<Seq<char>, Seq<char>> {
    match head {
        Ok(at) => Ok(at.spec_label()),
        Err(reason) => Err(reason@),
    }
}

/// What `HEAD` is called where a name is needed in any case: its own name,
/// or `fallback` where the repository could not tell.
pub open spec fn spec_current_or(head: Result<HeadRef, String>, fallback: Seq<char>) -> Seq<char> {
    match current_branch_name(head) {
        Ok(name) => name,
        Err(_) => fallback,
    }
}

/// Why a branch without a name cannot be switched to.
pub open spec fn spec_unnamed_switch() -> Seq<char> {
    "Invalid UTF-8 in branch name."@
}

/// Why a branch without a name cannot be fetched.
pub open spec fn spec_unnamed_fetch() -> Seq<char> {
    "Invalid UTF-8 in branch name"@
}

/// Why a branch without a name cannot be switched to.
pub fn unnamed_switch() -> (reason: String)
    ensures
        reason@ == spec_unnamed_switch(),
{
    String::from_str("Invalid UTF-8 in branch name.")
}

/// Why a branch without a name cannot be fetched.
pub fn unnamed_fetch() -> (reason: String)
    ensures
        reason@ == spec_unnamed_fetch(),
{
    String::from_str("Invalid UTF-8 in branch name")
}

/// Whether to check out `branch`, given what `HEAD` is called and what the
/// repository said of the working tree. The checkout is asked for only if
/// the branch has a name and the tree is known to be clean; every other
/// case is an error with its reason.
pub open spec fn switch_decision(
    branch: Option<Seq<char>>,
    current: Seq<char>,
    clean: Result<bool, String>,
) -> Result<RequestView, Seq<char>> {
    match branch {
        None => Err(spec_unnamed_switch()),
        Some(name) => match clean {
            Err(reason) => Err(reason@),
            Ok(false) => Err("Uncommitted local changes on branch "@ + current),
            Ok(true) => Ok(RequestView::checkout(name)),
        },
    }
}

/// Whether to fetch `branch`: a branch with a name is fetched, one without
/// is an error.
pub open spec fn fetch_decision(branch: Option<Seq<char>>) -> Result<RequestView, Seq<char>> {
    match branch {
        None => Err(spec_unnamed_fetch()),
        Some(name) => Ok(RequestView::fetch(name)),
    }
}

/// The local branches as they were last listed, in the order of the listing.
/// The list is empty at first and is never patched: a new listing takes the
/// place of the old one, whole. A repository has no two branches of one name,
/// and the list is its listing, so the list has no name twice either.
pub struct BranchManager {
    pub local_branches: Vec<Branch>,
}

impl View for BranchManager {
    type V = Seq<Option<Seq<char>>>;

    open spec fn view(&self) -> Seq<Option<Seq<char>>> {
        self.local_branches.deep_view()
    }
}

impl BranchManager {
    /// The manager at the start of a session: it has no branches until the
    /// first listing is taken in.
    pub fn new() -> (manager: Self)
        ensures
            manager@ == Seq::<Option<Seq<char>>>::empty(),
    {
        let manager = Self { local_branches: Vec::new() };
        assert(manager@ =~= Seq::<Option<Seq<char>>>::empty());
        manager
    }

    /// Takes a new listing in. Where the repository listed its branches,
    /// they replace the old ones; where it failed, the old ones stay and the
    /// error is handed on.
    pub fn refresh_branches(&mut self, listed: Result<Vec<Branch>, String>) -> (done: Result<(), String>)
        ensures
            match listed {
                Ok(branches) => {
                    &&& done is Ok
                    &&& final(self)@ == branches.deep_view()
                },
                Err(reason) => {
                    &&& done matches Err(text) && text@ == reason@
                    &&& *final(self) == *old(self)
                },
            },
    {
        match listed {
            Ok(local_branches) => {
                self.local_branches = local_branches;
                Ok(())
            },
            Err(reason) => Err(reason),
        }
    }

    /// How many branches there are.
    pub fn len(&self) -> (n: usize)
        ensures
            n == self@.len(),
    {
        self.local_branches.len()
    }

    /// The branch at `index`, if there is one.
    pub fn branch_at(&self, index: usize) -> (found: Option<&Branch>)
        ensures
            match found {
                Some(branch) => index < self@.len() && *branch == self.local_branches@[index as int]
                    && branch@ == self@[index as int],
                None => index >= self@.len(),
            },
    {
        if index < self.local_branches.len() {
            Some(&self.local_branches[index])
        } else {
            None
        }
    }

    /// The names of the branches, in the order of the list. A branch without
    /// a name is left out.
    pub fn get_all_local_branch_names(&self) -> (names: Vec<String>)
        ensures
            names.deep_view() == decodable_names(self@),
    {
        let mut names: Vec<String> = Vec::new();
        let mut i: usize = 0;
        while i < self.local_branches.len()
            invariant
                i <= self.local_branches.len(),
                names.deep_view() == decodable_names(self@.take(i as int)),
            decreases self.local_branches.len() - i,
        {
            let ghost before = names.deep_view();
            proof {
                assert(self@.take(i + 1).drop_last() =~= self@.take(i as int));
                assert(self@.take(i + 1).last() == self.local_branches@[i as int]@);
            }
            match self.local_branches[i].name() {
                Some(name) => {
                    names.push(String::from_str(name));
                    assert(names.deep_view() =~= before.push(name@));
                },
                None => {},
            }
            i += 1;
        }
        proof {
            assert(self@.take(i as int) =~= self@);
        }
        names
    }

    /// What `HEAD` is called: the short name of the branch it is on, `HEAD`
    /// where that branch has no readable name, or the identifier of the
    /// commit where it is on no branch. An error of the repository is handed
    /// on unchanged.
    pub fn get_current_branch(&self, head: &Result<HeadRef, String>) -> (name: Result<String, String>)
        ensures
            text_result(name) == current_branch_name(*head),
    {
        match head {
            Ok(at) => Ok(at.label()),
            Err(reason) => Err(reason.clone()),
        }
    }

    /// What `HEAD` is called, or `fallback` where the repository could not
    /// tell.
    pub fn current_branch_or(&self, head: &Result<HeadRef, String>, fallback: &str) -> (name: String)
        ensures
            name@ == spec_current_or(*head, fallback@),
    {
        match self.get_current_branch(head) {
            Ok(name) => name,
            Err(_) => String::from_str(fallback),
        }
    }

    /// Decides on a switch to `branch` once the repository has said whether
    /// the working tree is clean. `current` is what `HEAD` is called now.
    ///
    /// The answer is the checkout to ask for, or the reason why there will
    /// be none. A tree with changes in it is never left: the checkout is
    /// asked for only after the repository itself called the tree clean.
    pub fn switch_to_branch(
        &self,
        branch: &Branch,
        current: &str,
        clean: &Result<bool, String>,
    ) -> (decision: Result<Request, String>)
        ensures
            decision_view(decision) == switch_decision(branch@, current@, *clean),
            decision is Ok ==> *clean == Ok::<bool, String>(true),
    {
        match branch.name() {
            None => Err(unnamed_switch()),
            Some(name) => match clean {
                Err(reason) => Err(reason.clone()),
                Ok(false) => Err(join2("Uncommitted local changes on branch ", current)),
                Ok(true) => Ok(Request::checkout(name)),
            },
        }
    }

    /// Decides on a fetch of `branch`: the fetch to ask for, or the reason
    /// why there will be none. The working tree has no say in it.
    pub fn fetch_on_branch(&self, branch: &Branch) -> (decision: Result<Request, String>)
        ensures
            decision_view(decision) == fetch_decision(branch@),
    {
        match branch.name() {
            None => Err(unnamed_fetch()),
            Some(name) => Ok(Request::fetch(name)),
        }
    }
}

} // verus!
