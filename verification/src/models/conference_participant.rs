//! Participants of conferences.
use vstd::prelude::*;
use crate::oid::{DateTime, ObjectId};

verus! {

/// A participant of a conference.
#[derive(Debug)]
#[allow(missing_docs)]
pub struct ConferenceParticipant {
    pub id: Option<ObjectId>,
    pub tenant_id: ObjectId,
    pub conference_id: ObjectId,
    pub user_id: Option<ObjectId>,
    pub display_name: String,
    pub email: Option<String>,
    pub is_external: bool,
    pub role: ParticipantRole,
    pub sessions: Vec<ParticipantSession>,
    pub is_muted: bool,
    pub is_video_on: bool,
    pub is_screen_sharing: bool,
    pub is_hand_raised: bool,
    pub total_duration: u32,
    pub created_at: DateTime,
    pub updated_at: DateTime,
}

/// What a participant may do.
#[derive(Debug, Clone, Copy, PartialEq, Eq, Structural)]
#[allow(missing_docs)]
pub enum ParticipantRole {
    Organizer,
    CoOrganizer,
    Presenter,
    Attendee,
}

impl Default for ParticipantRole {
    fn default() -> (r: Self)
        ensures
            r == ParticipantRole::Attendee,
    {
        ParticipantRole::Attendee
    }
}

impl ParticipantRole {
    /// The name of the variant.
    pub open spec fn spec_label(self) -> &'static str {
        match self {
            ParticipantRole::Organizer => "Organizer",
            ParticipantRole::CoOrganizer => "CoOrganizer",
            ParticipantRole::Presenter => "Presenter",
            ParticipantRole::Attendee => "Attendee",
        }
    }

    /// The name of the variant.
    pub fn label(self) -> (r: &'static str)
        ensures
            r@ == self.spec_label()@,
    {
        match self {
            ParticipantRole::Organizer => "Organizer",
            ParticipantRole::CoOrganizer => "CoOrganizer",
            ParticipantRole::Presenter => "Presenter",
            ParticipantRole::Attendee => "Attendee",
        }
    }
}

/// One stay of a participant in a conference.
#[derive(Debug)]
#[allow(missing_docs)]
pub struct ParticipantSession {
    pub joined_at: DateTime,
    pub left_at: Option<DateTime>,
    pub duration: Option<u32>,
    pub device_type: String,
}

impl ConferenceParticipant {
    /// The collection that holds these documents.
    pub const COLLECTION: &'static str = "conference_participants";
}

} // verus!
