use vstd::prelude::*;

use crate::endpoint::Pagination;
use crate::user::User;

verus! {

/// An event in a user's or a project's activity.
#[derive(Clone, Debug, Default)]
pub struct Event {
    pub id: u32,
    pub title: Option<String>,
    pub project_id: u32,
    pub action_name: String,
    pub target_id: Option<u32>,
    pub target_iid: Option<u32>,
    pub target_type: Option<String>,
    pub author_id: u32,
    pub target_title: Option<String>,
    pub created_at: String,
    pub author_username: String,
    pub author: User,
    pub payload: Option<EventPayload>,
}

/// The detail that some kinds of event carry.
#[derive(Clone, Debug)]
pub enum EventPayload {
    WikiData(WikiPage),
    PushData(PushData),
    Note(Note),
}

#[derive(Clone, Debug, Default)]
pub struct WikiPage {
    pub format: String,
    pub slug: String,
    pub title: String,
}

#[derive(Clone, Debug, Default)]
pub struct PushData {
    pub commit_count: u32,
    pub action: String,
    pub ref_type: String,
    pub commit_from: String,
    pub commit_to: String,
    /// The pushed ref (sent as `ref`).
    pub ref_: String,
    pub commit_title: String,
    pub ref_count: Option<u32>,
}

#[derive(Clone, Debug, Default)]
pub struct Note {
    pub id: u32,
    /// The note's kind (sent as `type`).
    pub type_: Option<String>,
    pub body: String,
    pub attachment: Option<String>,
    pub author: User,
    pub created_at: String,
    pub updated_at: String,
    pub system: bool,
    pub noteable_id: u32,
    pub noteable_type: String,
    pub resolvable: bool,
    pub confidential: bool,
    pub internal: bool,
    pub noteable_iid: u32,
}

/// Filter for listing events.
#[derive(Clone, Debug, Default)]
pub struct EventFilter {
    pub action: Option<String>,
    pub target_type: Option<String>,
    pub before: Option<String>,
    pub after: Option<String>,
    pub scope: Option<String>,
    pub sort: Option<String>,
    pub page: Option<u32>,
    pub per_page: Option<u32>,
}

impl EventFilter {
    /// The page and page size that the filter asks for.
    pub fn pagination(&self) -> (r: Pagination)
        ensures
            r.page == self.page,
            r.per_page == self.per_page,
    {
        Pagination { page: self.page, per_page: self.per_page }
    }
}

} // verus!
