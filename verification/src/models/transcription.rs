//! Transcripts.
use vstd::prelude::*;
use crate::oid::{DateTime, ObjectId};

verus! {

/// The transcript of a conference.
#[derive(Debug)]
#[allow(missing_docs)]
pub struct Transcription {
    pub id: Option<ObjectId>,
    pub tenant_id: ObjectId,
    pub conference_id: ObjectId,
    pub recording_id: Option<ObjectId>,
    pub status: TranscriptionStatus,
    pub language: String,
    pub format: TranscriptFormat,
    pub content_url: String,
    pub summary: Option<String>,
    pub action_items: Vec<ActionItem>,
    pub created_at: DateTime,
    pub updated_at: DateTime,
}

/// How far a transcript is.
#[derive(Debug, Clone, Copy, PartialEq, Eq, Structural)]
#[allow(missing_docs)]
pub enum TranscriptionStatus {
    Processing,
    Available,
    Failed,
}

impl Default for TranscriptionStatus {
    fn default() -> (r: Self)
        ensures
            r == TranscriptionStatus::Processing,
    {
        TranscriptionStatus::Processing
    }
}

impl TranscriptionStatus {
    /// The name of the variant.
    pub open spec fn spec_label(self) -> &'static str {
        match self {
            TranscriptionStatus::Processing => "Processing",
            TranscriptionStatus::Available => "Available",
            TranscriptionStatus::Failed => "Failed",
        }
    }

    /// The name of the variant.
    pub fn label(self) -> (r: &'static str)
        ensures
            r@ == self.spec_label()@,
    {
        match self {
            TranscriptionStatus::Processing => "Processing",
            TranscriptionStatus::Available => "Available",
            TranscriptionStatus::Failed => "Failed",
        }
    }
}

/// How a transcript is written.
#[derive(Debug, Clone, Copy, PartialEq, Eq, Structural)]
#[allow(missing_docs)]
pub enum TranscriptFormat {
    Vtt,
    Srt,
    Json,
}

impl Default for TranscriptFormat {
    fn default() -> (r: Self)
        ensures
            r == TranscriptFormat::Json,
    {
        TranscriptFormat::Json
    }
}

impl TranscriptFormat {
    /// The name of the variant.
    pub open spec fn spec_label(self) -> &'static str {
        match self {
            TranscriptFormat::Vtt => "Vtt",
            TranscriptFormat::Srt => "Srt",
            TranscriptFormat::Json => "Json",
        }
    }

    /// The name of the variant.
    pub fn label(self) -> (r: &'static str)
        ensures
            r@ == self.spec_label()@,
    {
        match self {
            TranscriptFormat::Vtt => "Vtt",
            TranscriptFormat::Srt => "Srt",
            TranscriptFormat::Json => "Json",
        }
    }
}

/// Something to do that came up in a conference.
#[derive(Debug)]
#[allow(missing_docs)]
pub struct ActionItem {
    pub text: String,
    pub assignee: Option<String>,
    pub due_date: Option<String>,
    pub completed: bool,
}

impl Transcription {
    /// The collection that holds these documents.
    pub const COLLECTION: &'static str = "transcriptions";
}

} // verus!
