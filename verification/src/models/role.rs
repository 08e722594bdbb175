//! Roles and their permissions.
use vstd::prelude::*;
use crate::oid::{DateTime, ObjectId};

verus! {

/// A role of a tenant.
#[derive(Debug)]
#[allow(missing_docs)]
pub struct Role {
    pub id: Option<ObjectId>,
    pub tenant_id: ObjectId,
    pub name: String,
    pub description: Option<String>,
    pub color: Option<u32>,
    pub position: u32,
    pub permissions: u64,
    pub is_default: bool,
    pub is_managed: bool,
    pub is_mentionable: bool,
    pub is_hoisted: bool,
    pub created_at: DateTime,
    pub updated_at: DateTime,
}

impl Role {
    /// The collection that holds these documents.
    pub const COLLECTION: &'static str = "roles";
}

} // verus!
