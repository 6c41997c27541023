//! The messages of the status line, word for word.

use vstd::prelude::*;

use crate::text::{join2, join3, join4};

verus! {

pub open spec fn spec_no_branch_selected() -> Seq<char> {
    "No branch selected"@
}

pub open spec fn spec_switching(name: Seq<char>) -> Seq<char> {
    "Switching to "@ + name + "..."@
}

pub open spec fn spec_switched(name: Seq<char>) -> Seq<char> {
    "Successfully switched to branch "@ + name
}

pub open spec fn spec_switch_failed(name: Seq<char>, reason: Seq<char>) -> Seq<char> {
    "Error switching to "@ + name + ": "@ + reason
}

pub open spec fn spec_fetching(name: Seq<char>) -> Seq<char> {
    "Fetching "@ + name + "..."@
}

pub open spec fn spec_fetched(name: Seq<char>) -> Seq<char> {
    "Successfully fetched "@ + name
}

pub open spec fn spec_fetch_failed(name: Seq<char>, reason: Seq<char>) -> Seq<char> {
    "Error fetching "@ + name + ": "@ + reason
}

pub open spec fn spec_refreshing() -> Seq<char> {
    "Refreshing"@
}

pub open spec fn spec_refreshed() -> Seq<char> {
    "Refreshed Branches"@
}

pub open spec fn spec_refresh_failed(reason: Seq<char>) -> Seq<char> {
    "Failed to refresh branches: "@ + reason
}

/// The title of the screen: the name of the program and, in brackets, the
/// branch sign and what `HEAD` is called.
pub open spec fn spec_title(current: Seq<char>) -> Seq<char> {
    "Git Branch Explorer (\u{f126} "@ + current + ")"@
}

/// Said when a switch or a fetch is asked for and the list is empty.
pub fn no_branch_selected() -> (text: String)
    ensures
        text@ == spec_no_branch_selected(),
{
    String::from_str("No branch selected")
}

/// Said while a switch to `name` is under way.
pub fn switching(name: &str) -> (text: String)
    ensures
        text@ == spec_switching(name@),
{
    join3("Switching to ", name, "...")
}

/// Said after a switch to `name`.
pub fn switched(name: &str) -> (text: String)
    ensures
        text@ == spec_switched(name@),
{
    join2("Successfully switched to branch ", name)
}

/// Said when a switch to `name` was refused or failed, with the reason as
/// it came.
pub fn switch_failed(name: &str, reason: &str) -> (text: String)
    ensures
        text@ == spec_switch_failed(name@, reason@),
{
    join4("Error switching to ", name, ": ", reason)
}

/// Said while a fetch of `name` is under way.
pub fn fetching(name: &str) -> (text: String)
    ensures
        text@ == spec_fetching(name@),
{
    join3("Fetching ", name, "...")
}

/// Said after a fetch of `name`.
pub fn fetched(name: &str) -> (text: String)
    ensures
        text@ == spec_fetched(name@),
{
    join2("Successfully fetched ", name)
}

/// Said when a fetch of `name` failed, with the reason as it came.
pub fn fetch_failed(name: &str, reason: &str) -> (text: String)
    ensures
        text@ == spec_fetch_failed(name@, reason@),
{
    join4("Error fetching ", name, ": ", reason)
}

/// Said while the branches are listed anew.
pub fn refreshing() -> (text: String)
    ensures
        text@ == spec_refreshing(),
{
    String::from_str("Refreshing")
}

/// Said after the branches were listed anew.
pub fn refreshed() -> (text: String)
    ensures
        text@ == spec_refreshed(),
{
    String::from_str("Refreshed Branches")
}

/// Said when the branches could not be listed, with the reason as it came.
pub fn refresh_failed(reason: &str) -> (text: String)
    ensures
        text@ == spec_refresh_failed(reason@),
{
    join2("Failed to refresh branches: ", reason)
}

/// The title of the screen.
pub fn title(current: &str) -> (text: String)
    ensures
        text@ == spec_title(current@),
{
    join3("Git Branch Explorer (\u{f126} ", current, ")")
}

} // verus!
