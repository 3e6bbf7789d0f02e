use vstd::prelude::*;

use crate::groups::SharedWithGroups;
use crate::user::User;

verus! {

/// A project (repository) as the API reports it.
#[derive(Clone, Debug, Default)]
pub struct Project {
    pub id: u32,
    pub path_with_namespace: String,
    pub description: Option<String>,
    pub default_branch: Option<String>,
    pub visibility: Option<String>,
    pub ssh_url_to_repo: Option<String>,
    pub http_url_to_repo: Option<String>,
    pub web_url: Option<String>,
    pub readme_url: Option<String>,
    pub topics: Option<Vec<String>>,
    pub name: String,
    pub name_with_namespace: String,
    pub path: String,
    pub issues_enabled: Option<bool>,
    pub open_issues_count: Option<u32>,
    pub merge_requests_enabled: Option<bool>,
    pub jobs_enabled: Option<bool>,
    pub wiki_enabled: Option<bool>,
    pub snippets_enabled: Option<bool>,
    pub can_create_merge_request_in: Option<bool>,
    pub resolve_outdated_diff_discussions: Option<bool>,
    pub container_registry_access_level: Option<String>,
    pub created_at: String,
    pub last_activity_at: Option<String>,
    pub creator_id: Option<u32>,
    pub import_status: Option<String>,
    pub archived: Option<bool>,
    pub forks_count: Option<u32>,
    pub star_count: Option<usize>,
    pub avatar_url: Option<String>,
    pub shared_runners_enabled: Option<bool>,
    pub runners_token: Option<String>,
    pub ci_default_git_depth: Option<u32>,
    pub ci_forward_deployment_enabled: Option<bool>,
    pub public_jobs: Option<bool>,
    pub shared_with_groups: Option<Vec<SharedWithGroups>>,
    pub only_allow_merge_if_pipeline_succeeds: Option<bool>,
    pub allow_merge_on_skipped_pipeline: Option<bool>,
    pub restrict_user_defined_variables: Option<bool>,
    pub only_allow_merge_if_all_discussions_are_resolved: Option<bool>,
    pub remove_source_branch_after_merge: Option<bool>,
    pub request_access_enabled: Option<bool>,
    pub merge_method: Option<String>,
    pub squash_option: Option<String>,
    pub autoclose_referenced_issues: Option<bool>,
    pub suggestion_commit_message: Option<String>,
    pub marked_for_deletion_on: Option<String>,
    pub container_registry_image_prefix: Option<String>,
    pub issues_template: Option<String>,
    pub merge_requests_template: Option<String>,
    pub owner: Option<User>,
    pub namespace: Option<Namespace>,
    pub statistics: Option<Statistics>,
    pub links: Option<Links>,
}

impl Project {
    /// The project as a listing names it: by its full path.
    pub fn to_string(&self) -> (r: String)
        ensures
            r@ == self.path_with_namespace@,
    {
        self.path_with_namespace.clone()
    }
}

/// The namespace (user or group) that holds a project.
#[derive(Clone, Debug, Default)]
pub struct Namespace {
    pub id: Option<u32>,
    pub name: Option<String>,
    pub path: Option<String>,
    pub kind: Option<String>,
    pub full_path: Option<String>,
}

/// Storage figures of a project.
#[derive(Clone, Debug, Default)]
pub struct Statistics {
    pub commit_count: Option<u32>,
    pub storage_size: Option<u32>,
    pub repository_size: Option<u32>,
    pub wiki_size: Option<u32>,
    pub lfs_objects_size: Option<u32>,
    pub job_artifacts_size: Option<u32>,
    pub packages_size: Option<u32>,
    pub snippets_size: Option<u32>,
}

/// Addresses of a project's related resources.
#[derive(Clone, Debug, Default)]
pub struct Links {
    pub self_: String,
    pub issues: Option<String>,
    pub merge_requests: Option<String>,
    pub repo_branches: Option<String>,
    pub labels: Option<String>,
    pub events: Option<String>,
    pub members: Option<String>,
    pub cluster_agents: Option<String>,
}

} // verus!
