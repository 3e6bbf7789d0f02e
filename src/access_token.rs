use vstd::prelude::*;

use crate::user::AccessLevel;

verus! {

/// A project or group access token.
#[derive(Clone, Debug, Default)]
pub struct AccessToken {
    pub id: u32,
    pub user_id: u32,
    pub name: String,
    pub scopes: Vec<String>,
    pub created_at: String,
    pub expires_at: Option<String>,
    pub last_used_at: Option<String>,
    pub access_level: AccessLevel,
    pub active: bool,
    pub revoked: bool,
}

} // verus!
