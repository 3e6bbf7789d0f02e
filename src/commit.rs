use vstd::prelude::*;

verus! {

/// A commit as the API reports it.
#[derive(Clone, Debug, Default)]
pub struct Commit {
    pub id: String,
    pub short_id: Option<String>,
    pub created_at: Option<String>,
    pub parent_ids: Option<Vec<String>>,
    pub title: Option<String>,
    pub message: Option<String>,
    pub author_name: Option<String>,
    pub author_email: Option<String>,
    pub authored_date: Option<String>,
    pub committer_name: Option<String>,
    pub committer_email: Option<String>,
    pub committed_date: Option<String>,
    pub web_url: Option<String>,
}

impl Commit {
    /// The text that names this commit in a listing.
    pub open spec fn label(&self) -> Seq<char> {
        match self.short_id {
            Some(s) => s@,
            None => self.id@,
        }
    }

    /// The short identifier when the API gave one, else the full identifier.
    pub fn to_string(&self) -> (r: String)
        ensures
            r@ == self.label(),
    {
        match &self.short_id {
            Some(s) => s.clone(),
            None => self.id.clone(),
        }
    }
}

} // verus!
