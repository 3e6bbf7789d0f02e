use vstd::prelude::*;

use crate::projects::Project;

verus! {

/// A group of projects and users.
#[derive(Clone, Debug, Default)]
pub struct Group {
    pub id: u32,
    pub name: String,
    pub path: String,
    pub description: String,
    pub visibility: String,
    pub share_with_group_lock: bool,
    pub require_two_factor_authentication: bool,
    pub two_factor_grace_period: u32,
    pub project_creation_level: String,
    pub auto_devops_enabled: Option<bool>,
    pub subgroup_creation_level: String,
    pub emails_disabled: Option<bool>,
    pub mentions_disabled: Option<bool>,
    pub lfs_enabled: bool,
    pub default_branch_protection: u32,
    pub avatar_url: Option<String>,
    pub web_url: String,
    pub request_access_enabled: bool,
    pub full_name: String,
    pub full_path: String,
    pub file_template_project_id: Option<u32>,
    pub parent_id: Option<u32>,
    pub created_at: String,
    pub shared_runners_minutes_limit: Option<u32>,
    pub extra_shared_runners_minutes_limit: Option<u32>,
    pub marked_for_deletion_on: Option<String>,
    pub shared_projects: Option<Vec<Project>>,
    pub shared_with_groups: Option<Vec<SharedWithGroups>>,
    pub projects: Option<Vec<Project>>,
}

/// A group that a project or group is shared with.
#[derive(Clone, Debug, Default)]
pub struct SharedWithGroups {
    pub group_id: u32,
    pub group_name: String,
    pub group_full_path: String,
    pub group_access_level: u32,
    pub expires_at: Option<String>,
}

} // verus!
