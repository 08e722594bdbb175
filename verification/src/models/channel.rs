//! Channels.
use vstd::prelude::*;
use crate::oid::{DateTime, ObjectId};

verus! {

/// A channel of a tenant.
#[derive(Debug)]
#[allow(missing_docs)]
pub struct Channel {
    pub id: Option<ObjectId>,
    pub tenant_id: ObjectId,
    pub parent_id: Option<ObjectId>,
    pub channel_type: ChannelType,
    pub name: String,
    pub path: String,
    pub topic: Option<TopicInfo>,
    pub purpose: Option<String>,
    pub icon: Option<String>,
    pub position: u32,
    pub is_private: bool,
    pub is_archived: bool,
    pub is_read_only: bool,
    pub is_default: bool,
    pub permission_overwrites: Vec<PermissionOverwrite>,
    pub tags: Vec<String>,
    pub media_settings: Option<MediaSettings>,
    pub creator_id: ObjectId,
    pub last_message_id: Option<ObjectId>,
    pub last_activity_at: Option<DateTime>,
    pub member_count: u32,
    pub message_count: u64,
    pub created_at: DateTime,
    pub updated_at: DateTime,
    pub deleted_at: Option<DateTime>,
}

/// What a channel is for.
#[derive(Debug, Clone, Copy, PartialEq, Eq, Structural)]
#[allow(missing_docs)]
pub enum ChannelType {
    Category,
    Text,
    Voice,
    Announcement,
    Forum,
    Stage,
    Dm,
    GroupDm,
}

impl Default for ChannelType {
    fn default() -> (r: Self)
        ensures
            r == ChannelType::Text,
    {
        ChannelType::Text
    }
}

impl ChannelType {
    /// The name of the variant.
    pub open spec fn spec_label(self) -> &'static str {
        match self {
            ChannelType::Category => "Category",
            ChannelType::Text => "Text",
            ChannelType::Voice => "Voice",
            ChannelType::Announcement => "Announcement",
            ChannelType::Forum => "Forum",
            ChannelType::Stage => "Stage",
            ChannelType::Dm => "Dm",
            ChannelType::GroupDm => "GroupDm",
        }
    }

    /// The name of the variant.
    pub fn label(self) -> (r: &'static str)
        ensures
            r@ == self.spec_label()@,
    {
        match self {
            ChannelType::Category => "Category",
            ChannelType::Text => "Text",
            ChannelType::Voice => "Voice",
            ChannelType::Announcement => "Announcement",
            ChannelType::Forum => "Forum",
            ChannelType::Stage => "Stage",
            ChannelType::Dm => "Dm",
            ChannelType::GroupDm => "GroupDm",
        }
    }
}

/// The topic of a channel.
#[derive(Debug)]
#[allow(missing_docs)]
pub struct TopicInfo {
    pub value: Option<String>,
    pub set_by: Option<ObjectId>,
    pub set_at: Option<DateTime>,
}

/// Permissions that a channel grants or denies beyond the roles.
#[derive(Debug)]
#[allow(missing_docs)]
pub struct PermissionOverwrite {
    pub target_id: ObjectId,
    pub target_type: OverwriteTarget,
    pub allow: u64,
    pub deny: u64,
}

/// Whom a permission overwrite is for.
#[derive(Debug, Clone, Copy, PartialEq, Eq, Structural)]
#[allow(missing_docs)]
pub enum OverwriteTarget {
    Role,
    User,
}

/// The media limits of a voice channel.
#[derive(Debug)]
#[allow(missing_docs)]
pub struct MediaSettings {
    pub bitrate: u32,
    pub user_limit: u32,
    pub video_quality_mode: VideoQuality,
}

/// The video quality of a voice channel.
#[derive(Debug, Clone, Copy, PartialEq, Eq, Structural)]
#[allow(missing_docs)]
pub enum VideoQuality {
    Auto,
    Hd720,
}

impl Default for VideoQuality {
    fn default() -> (r: Self)
        ensures
            r == VideoQuality::Auto,
    {
        VideoQuality::Auto
    }
}

impl Channel {
    /// The collection that holds these documents.
    pub const COLLECTION: &'static str = "channels";
}

/// The bitrate of a voice channel that sets none.
pub fn default_bitrate() -> (r: u32)
    ensures
        r == 256_000,
{
    256_000
}

} // verus!
