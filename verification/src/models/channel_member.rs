//! Members of channels.
use vstd::prelude::*;
use crate::models::tenant::NotificationLevel;
use crate::oid::{DateTime, ObjectId};

verus! {

/// A member of a channel.
#[derive(Debug)]
#[allow(missing_docs)]
pub struct ChannelMember {
    pub id: Option<ObjectId>,
    pub tenant_id: ObjectId,
    pub channel_id: ObjectId,
    pub user_id: ObjectId,
    pub joined_at: DateTime,
    pub last_read_message_id: Option<ObjectId>,
    pub last_read_at: Option<DateTime>,
    pub unread_count: u32,
    pub mention_count: u32,
    pub notification_override: Option<NotificationLevel>,
    pub is_muted: bool,
    pub is_pinned: bool,
    pub created_at: DateTime,
    pub updated_at: DateTime,
}

impl ChannelMember {
    /// The collection that holds these documents.
    pub const COLLECTION: &'static str = "channel_members";
}

} // verus!
