//! Invitations.
use vstd::prelude::*;
use crate::oid::{DateTime, ObjectId};

verus! {

/// An invitation to a tenant.
#[derive(Debug)]
#[allow(missing_docs)]
pub struct Invite {
    pub id: Option<ObjectId>,
    pub tenant_id: ObjectId,
    pub channel_id: Option<ObjectId>,
    pub code: String,
    pub inviter_id: ObjectId,
    pub target_email: Option<String>,
    pub target_user_id: Option<ObjectId>,
    pub max_uses: Option<u32>,
    pub use_count: u32,
    pub expires_at: Option<DateTime>,
    pub assign_role_ids: Vec<ObjectId>,
    pub status: InviteStatus,
    pub created_at: DateTime,
    pub updated_at: DateTime,
}

/// Whether an invitation can be used.
#[derive(Debug, Clone, Copy, PartialEq, Eq, Structural)]
#[allow(missing_docs)]
pub enum InviteStatus {
    Active,
    Expired,
    Revoked,
    Exhausted,
}

impl Default for InviteStatus {
    fn default() -> (r: Self)
        ensures
            r == InviteStatus::Active,
    {
        InviteStatus::Active
    }
}

impl Invite {
    /// The collection that holds these documents.
    pub const COLLECTION: &'static str = "invites";
}

} // verus!
