//! What a run of the program does, decided from its flags and from the
//! files staged for the commit.

use vstd::prelude::*;
use crate::parse::{split_on, split_spec};
use crate::text::{trim, trim_of, views};

verus! {

/// What the program is asked to do.
#[derive(Debug, Clone, Copy, PartialEq, Eq, Structural)]
pub enum Action {
    /// Print the usage.
    Help,
    /// Print the name and version.
    Version,
    /// Run the wizard; with `true`, only when files are staged.
    Coco(bool),
}

/// The action of a command line: help wins over version, and the wizard
/// checks the staged files unless told not to.
pub fn action_from_flags(help: bool, version: bool, no_stage_check: bool) -> (r: Action)
    ensures
        help ==> r == Action::Help,
        !help && version ==> r == Action::Version,
        !help && !version ==> r == Action::Coco(!no_stage_check),
{
    if help {
        return Action::Help;
    }
    if version {
        return Action::Version;
    }
    if no_stage_check {
        return Action::Coco(false);
    }
    Action::Coco(true)
}

/// The staged files named in the output of `git diff --name-only --cached`:
/// none for an empty output, else one per line of the trimmed output.
pub fn staged_files(out: &str) -> (r: Vec<String>)
    ensures
        out@.len() == 0 ==> r@.len() == 0,
        out@.len() > 0 ==> views(r@) == split_spec(trim_of(out@), '\n'),
{
    if out.is_empty() {
        return Vec::new();
    }
    let trimmed = trim(out);
    split_on(trimmed.as_str(), '\n')
}

/// Whether the run stops before the wizard: nothing is staged and the
/// staged files are to be checked.
pub fn stops_for_nothing_staged(staged: &Vec<String>, stage_check: bool) -> (r: bool)
    ensures
        r == (staged@.len() == 0 && stage_check),
{
    staged.len() == 0 && stage_check
}

} // verus!
