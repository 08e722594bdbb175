//! Messages.
use vstd::prelude::*;
use crate::oid::{DateTime, ObjectId};

verus! {

/// A message.
#[derive(Debug)]
#[allow(missing_docs)]
pub struct Message {
    pub id: Option<ObjectId>,
    pub tenant_id: ObjectId,
    pub channel_id: ObjectId,
    pub thread_id: Option<ObjectId>,
    pub is_thread_root: bool,
    pub thread_metadata: Option<ThreadMetadata>,
    pub author_id: ObjectId,
    pub author_type: AuthorType,
    pub content: String,
    pub content_type: ContentType,
    pub message_type: MessageType,
    pub embeds: Vec<Embed>,
    pub attachments: Vec<MessageAttachment>,
    pub mentions: Mentions,
    pub reaction_summary: Vec<ReactionSummary>,
    pub referenced_message_id: Option<ObjectId>,
    pub is_pinned: bool,
    pub is_edited: bool,
    pub edited_at: Option<DateTime>,
    pub nonce: Option<String>,
    pub created_at: DateTime,
    pub updated_at: DateTime,
    pub deleted_at: Option<DateTime>,
}

/// What is known of the thread below a message.
#[derive(Debug)]
#[allow(missing_docs)]
pub struct ThreadMetadata {
    pub reply_count: u32,
    pub last_reply_at: Option<DateTime>,
    pub last_reply_user_id: Option<ObjectId>,
    pub participant_ids: Vec<ObjectId>,
    pub is_locked: bool,
    pub is_archived: bool,
}

/// Who writes a message.
#[derive(Debug, Clone, Copy, PartialEq, Eq, Structural)]
#[allow(missing_docs)]
pub enum AuthorType {
    User,
    Bot,
    Webhook,
    System,
}

impl Default for AuthorType {
    fn default() -> (r: Self)
        ensures
            r == AuthorType::User,
    {
        AuthorType::User
    }
}

/// How the content of a message is written.
#[derive(Debug, Clone, Copy, PartialEq, Eq, Structural)]
#[allow(missing_docs)]
pub enum ContentType {
    Text,
    Markdown,
    RichText,
}

impl Default for ContentType {
    fn default() -> (r: Self)
        ensures
            r == ContentType::Text,
    {
        ContentType::Text
    }
}

/// What a message reports.
#[derive(Debug, Clone, Copy, PartialEq, Eq, Structural)]
#[allow(missing_docs)]
pub enum MessageType {
    Default,
    SystemJoin,
    SystemLeave,
    SystemPin,
    Call,
    Reply,
}

impl Default for MessageType {
    fn default() -> (r: Self)
        ensures
            r == MessageType::Default,
    {
        MessageType::Default
    }
}

impl MessageType {
    /// The name of the variant.
    pub open spec fn spec_label(self) -> &'static str {
        match self {
            MessageType::Default => "Default",
            MessageType::SystemJoin => "SystemJoin",
            MessageType::SystemLeave => "SystemLeave",
            MessageType::SystemPin => "SystemPin",
            MessageType::Call => "Call",
            MessageType::Reply => "Reply",
        }
    }

    /// The name of the variant.
    pub fn label(self) -> (r: &'static str)
        ensures
            r@ == self.spec_label()@,
    {
        match self {
            MessageType::Default => "Default",
            MessageType::SystemJoin => "SystemJoin",
            MessageType::SystemLeave => "SystemLeave",
            MessageType::SystemPin => "SystemPin",
            MessageType::Call => "Call",
            MessageType::Reply => "Reply",
        }
    }
}

/// A preview inside a message.
#[derive(Debug)]
#[allow(missing_docs)]
pub struct Embed {
    pub embed_type: String,
    pub url: Option<String>,
    pub title: Option<String>,
    pub description: Option<String>,
    pub color: Option<u32>,
    pub thumbnail_url: Option<String>,
    pub author_name: Option<String>,
    pub provider_name: Option<String>,
}

/// A file attached to a message.
#[derive(Debug)]
#[allow(missing_docs)]
pub struct MessageAttachment {
    pub file_id: ObjectId,
    pub filename: String,
    pub content_type: String,
    pub size: u64,
    pub url: String,
    pub thumbnail_url: Option<String>,
    pub is_spoiler: bool,
}

/// Whom a message mentions.
#[derive(Debug)]
#[allow(missing_docs)]
pub struct Mentions {
    pub users: Vec<ObjectId>,
    pub roles: Vec<ObjectId>,
    pub channels: Vec<ObjectId>,
    pub everyone: bool,
    pub here: bool,
}

/// How often a message got a reaction.
#[derive(Debug)]
#[allow(missing_docs)]
pub struct ReactionSummary {
    pub emoji: String,
    pub count: u32,
}

impl Message {
    /// The collection that holds these documents.
    pub const COLLECTION: &'static str = "messages";
}

impl Default for Mentions {
    fn default() -> (r: Self)
        ensures
            r.users@.len() == 0,
            r.roles@.len() == 0,
            r.channels@.len() == 0,
            !r.everyone,
            !r.here,
    {
        Mentions {
            users: Vec::new(),
            roles: Vec::new(),
            channels: Vec::new(),
            everyone: false,
            here: false,
        }
    }
}

} // verus!
