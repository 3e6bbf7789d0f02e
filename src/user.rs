use vstd::prelude::*;

verus! {

/// A user account.
#[derive(Clone, Debug, Default)]
pub struct User {
    pub id: u32,
    pub name: String,
    pub username: String,
    pub email: Option<String>,
    pub state: String,
    pub web_url: String,
    pub avatar_url: String,
    pub created_at: Option<String>,
    pub expires_at: Option<String>,
    pub access_level: Option<u32>,
    pub group_saml_identity: Option<Identity>,
    pub bio: Option<String>,
    pub bio_html: Option<String>,
    pub location: Option<String>,
    pub public_email: Option<String>,
    pub skype: Option<String>,
    pub linkedin: Option<String>,
    pub twitter: Option<String>,
    pub website_url: Option<String>,
    pub organization: Option<String>,
    pub job_title: Option<String>,
    pub pronouns: Option<String>,
    pub bot: Option<bool>,
    pub work_information: Option<String>,
    pub followers: Option<u32>,
    pub following: Option<u32>,
    pub last_sign_in_at: Option<String>,
    pub confirmed_at: Option<String>,
    pub last_activity_on: Option<String>,
    pub theme_id: Option<u32>,
    pub color_scheme_id: Option<u32>,
    pub projects_limit: Option<u32>,
    pub current_sign_in_at: Option<String>,
    pub identities: Option<Vec<Identity>>,
    pub can_create_group: Option<bool>,
    pub can_create_project: Option<bool>,
    pub two_factor_enabled: Option<bool>,
    pub external: Option<bool>,
    pub private_profile: Option<bool>,
    pub commit_email: Option<String>,
    pub is_admin: Option<bool>,
    pub note: Option<String>,
    pub shared_runners_minutes_limit: Option<u32>,
    pub extra_shared_runners_minutes_limit: Option<u32>,
    pub is_auditor: Option<bool>,
    pub using_license_seat: Option<bool>,
    pub namespace_id: Option<u32>,
}

impl User {
    /// The user as a listing names them: by username.
    pub fn to_string(&self) -> (r: String)
        ensures
            r@ == self.username@,
    {
        self.username.clone()
    }
}

/// A sign-in identity of a user at an external provider.
#[derive(Clone, Debug, Default)]
pub struct Identity {
    pub extern_uid: String,
    pub provider: String,
    pub saml_provider_id: Option<u32>,
}

/// A role in a project or group, from least to most privileged.
#[derive(Clone, Copy, Debug, Default, PartialEq, Eq, Structural)]
pub enum AccessLevel {
    #[default]
    NoAccess,
    MinimalAccess,
    Guest,
    Reporter,
    Developer,
    Maintainer,
    Owner,
}

/// The number that stands for a role on the wire.
pub open spec fn access_level_code(l: AccessLevel) -> u32 {
    match l {
        AccessLevel::NoAccess => 0,
        AccessLevel::MinimalAccess => 5,
        AccessLevel::Guest => 10,
        AccessLevel::Reporter => 20,
        AccessLevel::Developer => 30,
        AccessLevel::Maintainer => 40,
        AccessLevel::Owner => 50,
    }
}

impl AccessLevel {
    pub fn code(&self) -> (r: u32)
        ensures
            r == access_level_code(*self),
    {
        match self {
            AccessLevel::NoAccess => 0,
            AccessLevel::MinimalAccess => 5,
            AccessLevel::Guest => 10,
            AccessLevel::Reporter => 20,
            AccessLevel::Developer => 30,
            AccessLevel::Maintainer => 40,
            AccessLevel::Owner => 50,
        }
    }

    /// The role that this number stands for, if any.
    pub fn from_code(code: u32) -> (r: Option<AccessLevel>)
        ensures
            r == access_level_of_code(code),
    {
        match code {
            0 => Some(AccessLevel::NoAccess),
            5 => Some(AccessLevel::MinimalAccess),
            10 => Some(AccessLevel::Guest),
            20 => Some(AccessLevel::Reporter),
            30 => Some(AccessLevel::Developer),
            40 => Some(AccessLevel::Maintainer),
            50 => Some(AccessLevel::Owner),
            _ => None,
        }
    }
}

pub open spec fn access_level_of_code(code: u32) -> Option<AccessLevel> {
    if code == 0 {
        Some(AccessLevel::NoAccess)
    } else if code == 5 {
        Some(AccessLevel::MinimalAccess)
    } else if code == 10 {
        Some(AccessLevel::Guest)
    } else if code == 20 {
        Some(AccessLevel::Reporter)
    } else if code == 30 {
        Some(AccessLevel::Developer)
    } else if code == 40 {
        Some(AccessLevel::Maintainer)
    } else if code == 50 {
        Some(AccessLevel::Owner)
    } else {
        None
    }
}

/// A role read back from its number is the same role, and a number that reads as a
/// role is that role's number.
pub proof fn lemma_access_level_round_trip(l: AccessLevel, code: u32)
    ensures
        access_level_of_code(access_level_code(l)) == Some(l),
        access_level_of_code(code) matches Some(m) ==> access_level_code(m) == code,
{
}

} // verus!
