//! Emojis of tenants.
use vstd::prelude::*;
use crate::oid::{DateTime, ObjectId};

verus! {

/// An emoji of a tenant.
#[derive(Debug)]
#[allow(missing_docs)]
pub struct CustomEmoji {
    pub id: Option<ObjectId>,
    pub tenant_id: ObjectId,
    pub name: String,
    pub image_url: String,
    pub is_animated: bool,
    pub creator_id: ObjectId,
    pub allowed_role_ids: Option<Vec<ObjectId>>,
    pub created_at: DateTime,
    pub updated_at: DateTime,
}

impl CustomEmoji {
    /// The collection that holds these documents.
    pub const COLLECTION: &'static str = "custom_emojis";
}

} // verus!
