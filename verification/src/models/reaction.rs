//! Reactions.
use vstd::prelude::*;
use crate::oid::{DateTime, ObjectId};

verus! {

/// A reaction to a message.
#[derive(Debug)]
#[allow(missing_docs)]
pub struct Reaction {
    pub id: Option<ObjectId>,
    pub tenant_id: ObjectId,
    pub channel_id: ObjectId,
    pub message_id: ObjectId,
    pub user_id: ObjectId,
    pub emoji: EmojiRef,
    pub created_at: DateTime,
}

/// The emoji of a reaction.
#[derive(Debug)]
#[allow(missing_docs)]
pub struct EmojiRef {
    pub emoji_type: EmojiType,
    pub value: String,
    pub custom_emoji_id: Option<ObjectId>,
}

/// Where an emoji comes from.
#[derive(Debug, Clone, Copy, PartialEq, Eq, Structural)]
#[allow(missing_docs)]
pub enum EmojiType {
    Unicode,
    Custom,
}

impl Default for EmojiType {
    fn default() -> (r: Self)
        ensures
            r == EmojiType::Unicode,
    {
        EmojiType::Unicode
    }
}

impl Reaction {
    /// The collection that holds these documents.
    pub const COLLECTION: &'static str = "reactions";
}

} // verus!
