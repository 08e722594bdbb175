//! Kinds go by their names, plans offer what they promise, and roles grant
//! what their bits say.
use vstd::prelude::*;
use crate::models::background_task::TaskStatus;
use crate::models::channel::ChannelType;
use crate::models::conference::{ConferenceStatus, ConferenceType};
use crate::models::conference_participant::ParticipantRole;
use crate::models::message::MessageType;
use crate::models::permissions::{
    ADD_REACTIONS,
    ADMINISTRATOR,
    ALL,
    ATTACH_FILES,
    BAN_MEMBERS,
    CONNECT_VOICE,
    DEAFEN_MEMBERS,
    DEFAULT_ADMIN,
    DEFAULT_MEMBER,
    EMBED_LINKS,
    INVITE_MEMBERS,
    KICK_MEMBERS,
    MANAGE_CHANNELS,
    MANAGE_DOCUMENTS,
    MANAGE_MEETINGS,
    MANAGE_MESSAGES,
    MANAGE_ROLES,
    MANAGE_TENANT,
    MENTION_EVERYONE,
    MOVE_MEMBERS,
    MUTE_MEMBERS,
    READ_HISTORY,
    SEND_MESSAGES,
    SEND_THREADS,
    SPEAK,
    STREAM_VIDEO,
    VIEW_CHANNELS,
    granted,
};
use crate::models::recording::{RecordingStatus, RecordingType};
use crate::models::tenant::{Plan, plan_limits, plan_price};
use crate::models::transcription::{TranscriptFormat, TranscriptionStatus};

verus! {

/// Every one of the task statuses is shown by its own name.
pub proof fn task_statuses_go_by_their_names(x: TaskStatus)
    ensures
        x == TaskStatus::Pending ==> x.spec_label()@ == "Pending"@,
        x == TaskStatus::Processing ==> x.spec_label()@ == "Processing"@,
        x == TaskStatus::Completed ==> x.spec_label()@ == "Completed"@,
        x == TaskStatus::Failed ==> x.spec_label()@ == "Failed"@,
        x == TaskStatus::Expired ==> x.spec_label()@ == "Expired"@,
{
}

/// Every one of the channel types is shown by its own name.
pub proof fn channel_types_go_by_their_names(x: ChannelType)
    ensures
        x == ChannelType::Category ==> x.spec_label()@ == "Category"@,
        x == ChannelType::Text ==> x.spec_label()@ == "Text"@,
        x == ChannelType::Voice ==> x.spec_label()@ == "Voice"@,
        x == ChannelType::Announcement ==> x.spec_label()@ == "Announcement"@,
        x == ChannelType::Forum ==> x.spec_label()@ == "Forum"@,
        x == ChannelType::Stage ==> x.spec_label()@ == "Stage"@,
        x == ChannelType::Dm ==> x.spec_label()@ == "Dm"@,
        x == ChannelType::GroupDm ==> x.spec_label()@ == "GroupDm"@,
{
}

/// Every one of the conference types is shown by its own name.
pub proof fn conference_types_go_by_their_names(x: ConferenceType)
    ensures
        x == ConferenceType::Instant ==> x.spec_label()@ == "Instant"@,
        x == ConferenceType::Scheduled ==> x.spec_label()@ == "Scheduled"@,
        x == ConferenceType::Recurring ==> x.spec_label()@ == "Recurring"@,
        x == ConferenceType::Persistent ==> x.spec_label()@ == "Persistent"@,
{
}

/// Every one of the conference statuses is shown by its own name.
pub proof fn conference_statuses_go_by_their_names(x: ConferenceStatus)
    ensures
        x == ConferenceStatus::Scheduled ==> x.spec_label()@ == "Scheduled"@,
        x == ConferenceStatus::InProgress ==> x.spec_label()@ == "InProgress"@,
        x == ConferenceStatus::Ended ==> x.spec_label()@ == "Ended"@,
        x == ConferenceStatus::Cancelled ==> x.spec_label()@ == "Cancelled"@,
{
}

/// Every one of the participant roles is shown by its own name.
pub proof fn participant_roles_go_by_their_names(x: ParticipantRole)
    ensures
        x == ParticipantRole::Organizer ==> x.spec_label()@ == "Organizer"@,
        x == ParticipantRole::CoOrganizer ==> x.spec_label()@ == "CoOrganizer"@,
        x == ParticipantRole::Presenter ==> x.spec_label()@ == "Presenter"@,
        x == ParticipantRole::Attendee ==> x.spec_label()@ == "Attendee"@,
{
}

/// Every one of the message types is shown by its own name.
pub proof fn message_types_go_by_their_names(x: MessageType)
    ensures
        x == MessageType::Default ==> x.spec_label()@ == "Default"@,
        x == MessageType::SystemJoin ==> x.spec_label()@ == "SystemJoin"@,
        x == MessageType::SystemLeave ==> x.spec_label()@ == "SystemLeave"@,
        x == MessageType::SystemPin ==> x.spec_label()@ == "SystemPin"@,
        x == MessageType::Call ==> x.spec_label()@ == "Call"@,
        x == MessageType::Reply ==> x.spec_label()@ == "Reply"@,
{
}

/// Every one of the recording types is shown by its own name.
pub proof fn recording_types_go_by_their_names(x: RecordingType)
    ensures
        x == RecordingType::Video ==> x.spec_label()@ == "Video"@,
        x == RecordingType::Audio ==> x.spec_label()@ == "Audio"@,
        x == RecordingType::ScreenShare ==> x.spec_label()@ == "ScreenShare"@,
        x == RecordingType::ChatLog ==> x.spec_label()@ == "ChatLog"@,
{
}

/// Every one of the recording statuses is shown by its own name.
pub proof fn recording_statuses_go_by_their_names(x: RecordingStatus)
    ensures
        x == RecordingStatus::Processing ==> x.spec_label()@ == "Processing"@,
        x == RecordingStatus::Available ==> x.spec_label()@ == "Available"@,
        x == RecordingStatus::Failed ==> x.spec_label()@ == "Failed"@,
        x == RecordingStatus::Deleted ==> x.spec_label()@ == "Deleted"@,
{
}

/// Every one of the plans is shown by its own name.
pub proof fn plans_go_by_their_names(x: Plan)
    ensures
        x == Plan::Free ==> x.spec_label()@ == "Free"@,
        x == Plan::Pro ==> x.spec_label()@ == "Pro"@,
        x == Plan::Business ==> x.spec_label()@ == "Business"@,
        x == Plan::Enterprise ==> x.spec_label()@ == "Enterprise"@,
{
}

/// Every one of the transcription statuses is shown by its own name.
pub proof fn transcription_statuses_go_by_their_names(x: TranscriptionStatus)
    ensures
        x == TranscriptionStatus::Processing ==> x.spec_label()@ == "Processing"@,
        x == TranscriptionStatus::Available ==> x.spec_label()@ == "Available"@,
        x == TranscriptionStatus::Failed ==> x.spec_label()@ == "Failed"@,
{
}

/// Every one of the transcript formats is shown by its own name.
pub proof fn transcript_formats_go_by_their_names(x: TranscriptFormat)
    ensures
        x == TranscriptFormat::Vtt ==> x.spec_label()@ == "Vtt"@,
        x == TranscriptFormat::Srt ==> x.spec_label()@ == "Srt"@,
        x == TranscriptFormat::Json ==> x.spec_label()@ == "Json"@,
{
}

/// A tenant that pays nothing has none of what is paid for, and the two dearest
/// plans offer the same at the same price.
pub proof fn plans_offer_what_is_paid_for(plan: Plan)
    ensures
        plan_price(plan) == 0 <==> plan == Plan::Free,
        plan_price(Plan::Business) == 2 * plan_price(Plan::Pro),
        plan_price(Plan::Enterprise) == plan_price(Plan::Business),
        plan_limits(Plan::Enterprise) == plan_limits(Plan::Business),
        plan_limits(plan).cloud_integrations <==> plan != Plan::Free,
        plan_limits(plan).ai_recognition <==> plan == Plan::Business || plan == Plan::Enterprise,
        plan_limits(plan).recordings <==> plan == Plan::Business || plan == Plan::Enterprise,
        plan_limits(plan).video_max_participants == 0 <==> plan == Plan::Free,
        plan != Plan::Free ==> plan_limits(plan).max_members == u32::MAX && plan_limits(
            plan,
        ).max_channels == u32::MAX && plan_limits(plan).max_message_history == -1,
        plan_limits(Plan::Free).max_members == 2 * plan_limits(Plan::Free).max_channels,
        0 < plan_limits(Plan::Free).max_message_history,
        plan_limits(Plan::Free).storage_bytes == 100 * 1024 * 1024,
        plan_limits(Plan::Pro).storage_bytes == 10 * 1024 * 1024 * 1024,
        plan_limits(Plan::Business).storage_bytes == 10 * plan_limits(Plan::Pro).storage_bytes,
        plan_limits(Plan::Business).video_max_participants == 10 * plan_limits(
            Plan::Pro,
        ).video_max_participants,
        plan_limits(Plan::Pro).video_max_participants == plan_limits(Plan::Free).max_members,
        plan_limits(Plan::Free).max_message_history == 1000 * plan_limits(Plan::Free).max_channels,
        plan_limits(Plan::Free).max_channels == 5,
        plan_price(Plan::Pro) == 800,
{
}

/// Every permission is a bit of its own: each is the next after the one before.
pub proof fn permissions_are_bits_of_their_own()
    ensures
        VIEW_CHANNELS == 1,
        MANAGE_CHANNELS == 2 * VIEW_CHANNELS,
        MANAGE_ROLES == 2 * MANAGE_CHANNELS,
        MANAGE_TENANT == 2 * MANAGE_ROLES,
        KICK_MEMBERS == 2 * MANAGE_TENANT,
        BAN_MEMBERS == 2 * KICK_MEMBERS,
        INVITE_MEMBERS == 2 * BAN_MEMBERS,
        SEND_MESSAGES == 2 * INVITE_MEMBERS,
        SEND_THREADS == 2 * SEND_MESSAGES,
        EMBED_LINKS == 2 * SEND_THREADS,
        ATTACH_FILES == 2 * EMBED_LINKS,
        READ_HISTORY == 2 * ATTACH_FILES,
        MENTION_EVERYONE == 2 * READ_HISTORY,
        MANAGE_MESSAGES == 2 * MENTION_EVERYONE,
        ADD_REACTIONS == 2 * MANAGE_MESSAGES,
        CONNECT_VOICE == 2 * ADD_REACTIONS,
        SPEAK == 2 * CONNECT_VOICE,
        STREAM_VIDEO == 2 * SPEAK,
        MUTE_MEMBERS == 2 * STREAM_VIDEO,
        DEAFEN_MEMBERS == 2 * MUTE_MEMBERS,
        MOVE_MEMBERS == 2 * DEAFEN_MEMBERS,
        MANAGE_MEETINGS == 2 * MOVE_MEMBERS,
        MANAGE_DOCUMENTS == 2 * MANAGE_MEETINGS,
        ADMINISTRATOR == 2 * MANAGE_DOCUMENTS,
        ALL == 2 * ADMINISTRATOR - 1,
{
}

/// A member may read, write, react and talk, and manages nothing and nobody.
pub proof fn members_take_part()
    ensures
        granted(DEFAULT_MEMBER, VIEW_CHANNELS),
        !granted(DEFAULT_MEMBER, MANAGE_CHANNELS),
        !granted(DEFAULT_MEMBER, MANAGE_ROLES),
        !granted(DEFAULT_MEMBER, MANAGE_TENANT),
        !granted(DEFAULT_MEMBER, KICK_MEMBERS),
        !granted(DEFAULT_MEMBER, BAN_MEMBERS),
        !granted(DEFAULT_MEMBER, INVITE_MEMBERS),
        granted(DEFAULT_MEMBER, SEND_MESSAGES),
        granted(DEFAULT_MEMBER, SEND_THREADS),
        granted(DEFAULT_MEMBER, EMBED_LINKS),
        granted(DEFAULT_MEMBER, ATTACH_FILES),
        granted(DEFAULT_MEMBER, READ_HISTORY),
        !granted(DEFAULT_MEMBER, MENTION_EVERYONE),
        !granted(DEFAULT_MEMBER, MANAGE_MESSAGES),
        granted(DEFAULT_MEMBER, ADD_REACTIONS),
        granted(DEFAULT_MEMBER, CONNECT_VOICE),
        granted(DEFAULT_MEMBER, SPEAK),
        granted(DEFAULT_MEMBER, STREAM_VIDEO),
        !granted(DEFAULT_MEMBER, MUTE_MEMBERS),
        !granted(DEFAULT_MEMBER, DEAFEN_MEMBERS),
        !granted(DEFAULT_MEMBER, MOVE_MEMBERS),
        !granted(DEFAULT_MEMBER, MANAGE_MEETINGS),
        !granted(DEFAULT_MEMBER, MANAGE_DOCUMENTS),
        !granted(DEFAULT_MEMBER, ADMINISTRATOR),
{
    assert(0x3_cf81u64 & 0x80_0000u64 == 0
        && 0x3_cf81u64 & 0x1u64 == 0x1u64
        && 0x3_cf81u64 & 0x2u64 != 0x2u64
        && 0x3_cf81u64 & 0x4u64 != 0x4u64
        && 0x3_cf81u64 & 0x8u64 != 0x8u64
        && 0x3_cf81u64 & 0x10u64 != 0x10u64
        && 0x3_cf81u64 & 0x20u64 != 0x20u64
        && 0x3_cf81u64 & 0x40u64 != 0x40u64
        && 0x3_cf81u64 & 0x80u64 == 0x80u64
        && 0x3_cf81u64 & 0x100u64 == 0x100u64
        && 0x3_cf81u64 & 0x200u64 == 0x200u64
        && 0x3_cf81u64 & 0x400u64 == 0x400u64
        && 0x3_cf81u64 & 0x800u64 == 0x800u64
        && 0x3_cf81u64 & 0x1000u64 != 0x1000u64
        && 0x3_cf81u64 & 0x2000u64 != 0x2000u64
        && 0x3_cf81u64 & 0x4000u64 == 0x4000u64
        && 0x3_cf81u64 & 0x8000u64 == 0x8000u64
        && 0x3_cf81u64 & 0x1_0000u64 == 0x1_0000u64
        && 0x3_cf81u64 & 0x2_0000u64 == 0x2_0000u64
        && 0x3_cf81u64 & 0x4_0000u64 != 0x4_0000u64
        && 0x3_cf81u64 & 0x8_0000u64 != 0x8_0000u64
        && 0x3_cf81u64 & 0x10_0000u64 != 0x10_0000u64
        && 0x3_cf81u64 & 0x20_0000u64 != 0x20_0000u64
        && 0x3_cf81u64 & 0x40_0000u64 != 0x40_0000u64
        && 0x3_cf81u64 & 0x80_0000u64 != 0x80_0000u64) by (bit_vector);
}

/// An admin may do all that a member may, and manage the tenant, but is no
/// administrator; an owner may do everything.
pub proof fn admins_manage(flag: u64)
    ensures
        granted(ALL, flag),
        !granted(DEFAULT_ADMIN, ADMINISTRATOR),
        granted(DEFAULT_MEMBER, flag) ==> granted(DEFAULT_ADMIN, flag),
        granted(DEFAULT_ADMIN, VIEW_CHANNELS),
        granted(DEFAULT_ADMIN, MANAGE_CHANNELS),
        granted(DEFAULT_ADMIN, MANAGE_ROLES),
        granted(DEFAULT_ADMIN, MANAGE_TENANT),
        granted(DEFAULT_ADMIN, KICK_MEMBERS),
        granted(DEFAULT_ADMIN, BAN_MEMBERS),
        granted(DEFAULT_ADMIN, INVITE_MEMBERS),
        granted(DEFAULT_ADMIN, SEND_MESSAGES),
        granted(DEFAULT_ADMIN, SEND_THREADS),
        granted(DEFAULT_ADMIN, EMBED_LINKS),
        granted(DEFAULT_ADMIN, ATTACH_FILES),
        granted(DEFAULT_ADMIN, READ_HISTORY),
        granted(DEFAULT_ADMIN, MENTION_EVERYONE),
        granted(DEFAULT_ADMIN, MANAGE_MESSAGES),
        granted(DEFAULT_ADMIN, ADD_REACTIONS),
        granted(DEFAULT_ADMIN, CONNECT_VOICE),
        granted(DEFAULT_ADMIN, SPEAK),
        granted(DEFAULT_ADMIN, STREAM_VIDEO),
        granted(DEFAULT_ADMIN, MUTE_MEMBERS),
        granted(DEFAULT_ADMIN, DEAFEN_MEMBERS),
        granted(DEFAULT_ADMIN, MOVE_MEMBERS),
        granted(DEFAULT_ADMIN, MANAGE_MEETINGS),
        granted(DEFAULT_ADMIN, MANAGE_DOCUMENTS),
{
    assert(0xff_ffffu64 & 0x80_0000u64 != 0) by (bit_vector);
    assert(0x7f_ffffu64 & 0x80_0000u64 != 0x80_0000u64 && 0x7f_ffffu64 & 0x80_0000u64 == 0)
        by (bit_vector);
    assert(0x3_cf81u64 & 0x80_0000u64 == 0) by (bit_vector);
    assert(0x3_cf81u64 & flag == flag ==> 0x7f_ffffu64 & flag == flag) by (bit_vector);
    assert(0x7f_ffffu64 & 0x1u64 == 0x1u64
        && 0x7f_ffffu64 & 0x2u64 == 0x2u64
        && 0x7f_ffffu64 & 0x4u64 == 0x4u64
        && 0x7f_ffffu64 & 0x8u64 == 0x8u64
        && 0x7f_ffffu64 & 0x10u64 == 0x10u64
        && 0x7f_ffffu64 & 0x20u64 == 0x20u64
        && 0x7f_ffffu64 & 0x40u64 == 0x40u64
        && 0x7f_ffffu64 & 0x80u64 == 0x80u64
        && 0x7f_ffffu64 & 0x100u64 == 0x100u64
        && 0x7f_ffffu64 & 0x200u64 == 0x200u64
        && 0x7f_ffffu64 & 0x400u64 == 0x400u64
        && 0x7f_ffffu64 & 0x800u64 == 0x800u64
        && 0x7f_ffffu64 & 0x1000u64 == 0x1000u64
        && 0x7f_ffffu64 & 0x2000u64 == 0x2000u64
        && 0x7f_ffffu64 & 0x4000u64 == 0x4000u64
        && 0x7f_ffffu64 & 0x8000u64 == 0x8000u64
        && 0x7f_ffffu64 & 0x1_0000u64 == 0x1_0000u64
        && 0x7f_ffffu64 & 0x2_0000u64 == 0x2_0000u64
        && 0x7f_ffffu64 & 0x4_0000u64 == 0x4_0000u64
        && 0x7f_ffffu64 & 0x8_0000u64 == 0x8_0000u64
        && 0x7f_ffffu64 & 0x10_0000u64 == 0x10_0000u64
        && 0x7f_ffffu64 & 0x20_0000u64 == 0x20_0000u64
        && 0x7f_ffffu64 & 0x40_0000u64 == 0x40_0000u64) by (bit_vector);
}

} // verus!
