//! The adapter's own command-line choices, as plain values.
use vstd::prelude::*;

use crate::tidal::{Common, Desc};

verus! {

/// What the command line asks of the GitHub adapter.
pub struct GithubCli {
    pub id: Id,
    /// Description of the pull request.
    pub description: Option<Desc>,
    /// Open the page of the pull request.
    pub open: bool,
    /// Make a draft pull request.
    pub draft: bool,
    /// Let maintainers amend the pull request.
    pub fixup: bool,
    pub common: Common,
}

/// What identifies the pull request: a title or a linked issue; at least one
/// is given.
pub struct Id {
    /// Title of the pull request.
    pub title: Option<String>,
    /// Linked issue.
    pub issue: Option<u64>,
}

} // verus!
