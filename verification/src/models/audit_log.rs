//! The audit trail.
use vstd::prelude::*;
use crate::oid::{DateTime, ObjectId};

verus! {

/// One entry of the audit trail.
#[derive(Debug)]
#[allow(missing_docs)]
pub struct AuditLog {
    pub id: Option<ObjectId>,
    pub tenant_id: ObjectId,
    pub actor_id: Option<ObjectId>,
    pub actor_type: ActorType,
    pub action: String,
    pub target_type: String,
    pub target_id: Option<ObjectId>,
    pub changes: Vec<AuditChange>,
    pub metadata: AuditMetadata,
    pub created_at: DateTime,
}

/// Who did what the audit trail records.
#[derive(Debug, Clone, Copy, PartialEq, Eq, Structural)]
#[allow(missing_docs)]
pub enum ActorType {
    User,
    Bot,
    System,
    Webhook,
}

impl Default for ActorType {
    fn default() -> (r: Self)
        ensures
            r == ActorType::User,
    {
        ActorType::User
    }
}

/// One changed field of a recorded action.
#[derive(Debug)]
#[allow(missing_docs)]
pub struct AuditChange {
    pub field: String,
    pub old_value: Option<String>,
    pub new_value: Option<String>,
}

/// Where a recorded action came from.
#[derive(Debug)]
#[allow(missing_docs)]
pub struct AuditMetadata {
    pub ip: Option<String>,
    pub user_agent: Option<String>,
    pub reason: Option<String>,
}

impl AuditLog {
    /// The collection that holds these documents.
    pub const COLLECTION: &'static str = "audit_logs";
}

} // verus!
