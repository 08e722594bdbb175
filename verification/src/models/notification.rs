//! Notifications.
use vstd::prelude::*;
use crate::oid::{DateTime, ObjectId};

verus! {

/// A notification to a user.
#[derive(Debug)]
#[allow(missing_docs)]
pub struct Notification {
    pub id: Option<ObjectId>,
    pub tenant_id: ObjectId,
    pub user_id: ObjectId,
    pub notification_type: NotificationType,
    pub title: String,
    pub body: String,
    pub link: Option<String>,
    pub source: NotificationSource,
    pub is_read: bool,
    pub read_at: Option<DateTime>,
    pub created_at: DateTime,
}

/// What a notification is about.
#[derive(Debug, Clone, Copy, PartialEq, Eq, Structural)]
#[allow(missing_docs)]
pub enum NotificationType {
    Message,
    Mention,
    Reaction,
    Invite,
    Call,
    TaskComplete,
}

/// What a notification stems from.
#[derive(Debug)]
#[allow(missing_docs)]
pub struct NotificationSource {
    pub entity_type: String,
    pub entity_id: ObjectId,
    pub actor_id: Option<ObjectId>,
}

impl Notification {
    /// The collection that holds these documents.
    pub const COLLECTION: &'static str = "notifications";
}

} // verus!
