use vstd::prelude::*;

use crate::commit::Commit;

verus! {

/// A branch of a project's repository.
#[derive(Clone, Debug, Default)]
pub struct Branch {
    pub name: String,
    pub merged: bool,
    pub protected: bool,
    pub default: bool,
    pub developers_can_push: bool,
    pub developers_can_merge: bool,
    pub can_push: bool,
    pub web_url: String,
    pub commit: Commit,
}

/// Filter for listing branches.
#[derive(Clone, Debug, Default)]
pub struct BranchQuery {
    /// Only branches whose name contains this text; `^term` and `term$` anchor it.
    pub search: Option<String>,
}

/// What creating a branch takes.
#[derive(Clone, Debug, Default)]
pub struct BranchCreatePayload {
    /// Name of the new branch.
    pub branch: String,
    /// Branch name or commit to start it from (sent as `ref`).
    pub ref_: String,
}

} // verus!
