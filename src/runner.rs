use vstd::prelude::*;

use crate::endpoint::Pagination;
use crate::groups::Group;
use crate::projects::Project;

verus! {

/// A CI runner.
#[derive(Clone, Debug, Default)]
pub struct Runner {
    pub id: u32,
    pub description: String,
    pub ip_address: Option<String>,
    pub active: bool,
    pub paused: bool,
    pub is_shared: bool,
    pub runner_type: String,
    pub name: String,
    pub online: bool,
    pub status: String,
    pub tag_list: Option<Vec<String>>,
    pub run_untagged: Option<bool>,
    pub locked: Option<bool>,
    pub maximum_timeout: Option<u64>,
    pub access_level: Option<String>,
    pub version: Option<String>,
    pub revision: Option<String>,
    pub platform: Option<String>,
    pub architecture: Option<String>,
    pub contacted_at: Option<String>,
    pub projects: Option<Vec<Project>>,
    pub groups: Option<Vec<Group>>,
}

/// Filter for listing runners.
#[derive(Clone, Debug, Default)]
pub struct RunnerFilter {
    /// `instance_type`, `group_type` or `project_type` (sent as `type`).
    pub type_: Option<String>,
    pub status: Option<String>,
    pub paused: Option<bool>,
    pub tag_list: Option<Vec<String>>,
    pub page: Option<u32>,
    pub per_page: Option<u32>,
}

impl RunnerFilter {
    /// The page and page size that the filter asks for.
    pub fn pagination(&self) -> (r: Pagination)
        ensures
            r.page == self.page,
            r.per_page == self.per_page,
    {
        Pagination { page: self.page, per_page: self.per_page }
    }
}

} // verus!
