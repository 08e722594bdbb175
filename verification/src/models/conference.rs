//! Conferences.
use vstd::prelude::*;
use crate::oid::{DateTime, ObjectId};

verus! {

/// A conference.
#[derive(Debug)]
#[allow(missing_docs)]
pub struct Conference {
    pub id: Option<ObjectId>,
    pub tenant_id: ObjectId,
    pub channel_id: Option<ObjectId>,
    pub subject: String,
    pub description: Option<String>,
    pub conference_type: ConferenceType,
    pub status: ConferenceStatus,
    pub start_time: Option<DateTime>,
    pub end_time: Option<DateTime>,
    pub actual_start_time: Option<DateTime>,
    pub actual_end_time: Option<DateTime>,
    pub duration: Option<u32>,
    pub timezone: Option<String>,
    pub recurrence: Option<Recurrence>,
    pub join_url: String,
    pub meeting_code: String,
    pub passcode: Option<String>,
    pub waiting_room: bool,
    pub organizer_id: ObjectId,
    pub co_organizer_ids: Vec<ObjectId>,
    pub settings: ConferenceSettings,
    pub participant_count: u32,
    pub peak_participant_count: u32,
    pub created_at: DateTime,
    pub updated_at: DateTime,
}

/// How a conference is scheduled.
#[derive(Debug, Clone, Copy, PartialEq, Eq, Structural)]
#[allow(missing_docs)]
pub enum ConferenceType {
    Instant,
    Scheduled,
    Recurring,
    Persistent,
}

impl Default for ConferenceType {
    fn default() -> (r: Self)
        ensures
            r == ConferenceType::Instant,
    {
        ConferenceType::Instant
    }
}

impl ConferenceType {
    /// The name of the variant.
    pub open spec fn spec_label(self) -> &'static str {
        match self {
            ConferenceType::Instant => "Instant",
            ConferenceType::Scheduled => "Scheduled",
            ConferenceType::Recurring => "Recurring",
            ConferenceType::Persistent => "Persistent",
        }
    }

    /// The name of the variant.
    pub fn label(self) -> (r: &'static str)
        ensures
            r@ == self.spec_label()@,
    {
        match self {
            ConferenceType::Instant => "Instant",
            ConferenceType::Scheduled => "Scheduled",
            ConferenceType::Recurring => "Recurring",
            ConferenceType::Persistent => "Persistent",
        }
    }
}

/// How far a conference is.
#[derive(Debug, Clone, Copy, PartialEq, Eq, Structural)]
#[allow(missing_docs)]
pub enum ConferenceStatus {
    Scheduled,
    InProgress,
    Ended,
    Cancelled,
}

impl Default for ConferenceStatus {
    fn default() -> (r: Self)
        ensures
            r == ConferenceStatus::Scheduled,
    {
        ConferenceStatus::Scheduled
    }
}

impl ConferenceStatus {
    /// The name of the variant.
    pub open spec fn spec_label(self) -> &'static str {
        match self {
            ConferenceStatus::Scheduled => "Scheduled",
            ConferenceStatus::InProgress => "InProgress",
            ConferenceStatus::Ended => "Ended",
            ConferenceStatus::Cancelled => "Cancelled",
        }
    }

    /// The name of the variant.
    pub fn label(self) -> (r: &'static str)
        ensures
            r@ == self.spec_label()@,
    {
        match self {
            ConferenceStatus::Scheduled => "Scheduled",
            ConferenceStatus::InProgress => "InProgress",
            ConferenceStatus::Ended => "Ended",
            ConferenceStatus::Cancelled => "Cancelled",
        }
    }
}

/// How a conference repeats.
#[derive(Debug)]
#[allow(missing_docs)]
pub struct Recurrence {
    pub pattern: RecurrencePattern,
    pub interval: u32,
    pub days_of_week: Option<Vec<u8>>,
    pub end_date: Option<DateTime>,
    pub max_occurrences: Option<u32>,
}

/// The period of a repeating conference.
#[derive(Debug, Clone, Copy, PartialEq, Eq, Structural)]
#[allow(missing_docs)]
pub enum RecurrencePattern {
    Daily,
    Weekly,
    Monthly,
}

/// What participants of a conference may do.
#[derive(Debug)]
#[allow(missing_docs)]
pub struct ConferenceSettings {
    pub host_video: bool,
    pub participant_video: bool,
    pub join_before_host: bool,
    pub mute_on_entry: bool,
    pub chat_enabled: bool,
    pub screen_share_enabled: bool,
    pub auto_recording: RecordingMode,
    pub auto_transcription: bool,
    pub max_participants: Option<u32>,
}

/// Whether a conference records itself.
#[derive(Debug, Clone, Copy, PartialEq, Eq, Structural)]
#[allow(missing_docs)]
pub enum RecordingMode {
    Off,
    Local,
    Cloud,
}

impl Default for RecordingMode {
    fn default() -> (r: Self)
        ensures
            r == RecordingMode::Off,
    {
        RecordingMode::Off
    }
}

impl Conference {
    /// The collection that holds these documents.
    pub const COLLECTION: &'static str = "conferences";
}

/// The value of a permission that a conference does not set.
pub fn bool_true() -> (r: bool)
    ensures
        r,
{
    true
}

impl Default for ConferenceSettings {
    fn default() -> (r: Self)
        ensures
            r.host_video,
            r.participant_video,
            !r.join_before_host,
            !r.mute_on_entry,
            r.chat_enabled,
            r.screen_share_enabled,
            r.auto_recording == RecordingMode::Off,
            !r.auto_transcription,
            r.max_participants is None,
    {
        ConferenceSettings {
            host_video: bool_true(),
            participant_video: bool_true(),
            join_before_host: false,
            mute_on_entry: false,
            chat_enabled: bool_true(),
            screen_share_enabled: bool_true(),
            auto_recording: RecordingMode::Off,
            auto_transcription: false,
            max_participants: None,
        }
    }
}

} // verus!
