//! Users.
use vstd::prelude::*;
use crate::oid::{DateTime, ObjectId};

verus! {

/// A user.
#[derive(Debug)]
#[allow(missing_docs)]
pub struct User {
    pub id: Option<ObjectId>,
    pub email: String,
    pub username: String,
    pub display_name: String,
    pub avatar: Option<String>,
    pub password_hash: Option<String>,
    pub status: UserStatusInfo,
    pub presence: Presence,
    pub locale: String,
    pub timezone: String,
    pub is_verified: bool,
    pub is_mfa_enabled: bool,
    pub last_active_at: Option<DateTime>,
    pub oauth_providers: Vec<OAuthProvider>,
    pub notification_preferences: NotificationPrefs,
    pub created_at: DateTime,
    pub updated_at: DateTime,
    pub deleted_at: Option<DateTime>,
}

/// The status line of a user.
#[derive(Debug)]
#[allow(missing_docs)]
pub struct UserStatusInfo {
    pub text: Option<String>,
    pub emoji: Option<String>,
    pub expires_at: Option<DateTime>,
}

/// Whether a user is around.
#[derive(Debug, Clone, Copy, PartialEq, Eq, Structural)]
#[allow(missing_docs)]
pub enum Presence {
    Online,
    Idle,
    Dnd,
    Offline,
    Invisible,
}

impl Default for Presence {
    fn default() -> (r: Self)
        ensures
            r == Presence::Offline,
    {
        Presence::Offline
    }
}

/// An account elsewhere that a user signs in with.
#[derive(Debug)]
#[allow(missing_docs)]
pub struct OAuthProvider {
    pub provider: String,
    pub provider_id: String,
    pub access_token: Option<String>,
    pub refresh_token: Option<String>,
}

/// How a user wants to be notified.
#[derive(Debug)]
#[allow(missing_docs)]
pub struct NotificationPrefs {
    pub email: bool,
    pub push: bool,
    pub desktop: bool,
    pub mute_all: bool,
}

impl User {
    /// The collection that holds these documents.
    pub const COLLECTION: &'static str = "users";
}

/// The locale of a user who sets none.
pub fn default_locale() -> (r: String)
    ensures
        r@ == "en-US"@,
{
    "en-US".to_owned()
}

/// The time zone of a user who sets none.
pub fn default_timezone() -> (r: String)
    ensures
        r@ == "UTC"@,
{
    "UTC".to_owned()
}

impl Default for UserStatusInfo {
    fn default() -> (r: Self)
        ensures
            r.text is None,
            r.emoji is None,
            r.expires_at is None,
    {
        UserStatusInfo { text: None, emoji: None, expires_at: None }
    }
}

impl Default for NotificationPrefs {
    fn default() -> (r: Self)
        ensures
            r.email,
            r.push,
            r.desktop,
            !r.mute_all,
    {
        NotificationPrefs { email: true, push: true, desktop: true, mute_all: false }
    }
}

} // verus!
