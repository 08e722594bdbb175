//! Members of tenants.
use vstd::prelude::*;
use crate::models::tenant::NotificationLevel;
use crate::oid::{DateTime, ObjectId};

verus! {

/// A member of a tenant.
#[derive(Debug)]
#[allow(missing_docs)]
pub struct TenantMember {
    pub id: Option<ObjectId>,
    pub tenant_id: ObjectId,
    pub user_id: ObjectId,
    pub nickname: Option<String>,
    pub role_ids: Vec<ObjectId>,
    pub joined_at: DateTime,
    pub is_pending: bool,
    pub is_muted: bool,
    pub notification_override: Option<NotificationLevel>,
    pub invited_by: Option<ObjectId>,
    pub last_seen_at: Option<DateTime>,
    pub created_at: DateTime,
    pub updated_at: DateTime,
}

impl TenantMember {
    /// The collection that holds these documents.
    pub const COLLECTION: &'static str = "tenant_members";
}

} // verus!
