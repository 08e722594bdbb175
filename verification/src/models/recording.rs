//! Recordings.
use vstd::prelude::*;
use crate::oid::{DateTime, ObjectId};

verus! {

/// A recording of a conference.
#[derive(Debug)]
#[allow(missing_docs)]
pub struct Recording {
    pub id: Option<ObjectId>,
    pub tenant_id: ObjectId,
    pub conference_id: ObjectId,
    pub recording_type: RecordingType,
    pub status: RecordingStatus,
    pub file: StorageFile,
    pub started_at: DateTime,
    pub ended_at: DateTime,
    pub visibility: Visibility,
    pub allow_download: bool,
    pub expires_at: Option<DateTime>,
    pub created_at: DateTime,
    pub updated_at: DateTime,
    pub deleted_at: Option<DateTime>,
}

/// What a recording holds.
#[derive(Debug, Clone, Copy, PartialEq, Eq, Structural)]
#[allow(missing_docs)]
pub enum RecordingType {
    Video,
    Audio,
    ScreenShare,
    ChatLog,
}

impl Default for RecordingType {
    fn default() -> (r: Self)
        ensures
            r == RecordingType::Video,
    {
        RecordingType::Video
    }
}

impl RecordingType {
    /// The name of the variant.
    pub open spec fn spec_label(self) -> &'static str {
        match self {
            RecordingType::Video => "Video",
            RecordingType::Audio => "Audio",
            RecordingType::ScreenShare => "ScreenShare",
            RecordingType::ChatLog => "ChatLog",
        }
    }

    /// The name of the variant.
    pub fn label(self) -> (r: &'static str)
        ensures
            r@ == self.spec_label()@,
    {
        match self {
            RecordingType::Video => "Video",
            RecordingType::Audio => "Audio",
            RecordingType::ScreenShare => "ScreenShare",
            RecordingType::ChatLog => "ChatLog",
        }
    }
}

/// How far a recording is.
#[derive(Debug, Clone, Copy, PartialEq, Eq, Structural)]
#[allow(missing_docs)]
pub enum RecordingStatus {
    Processing,
    Available,
    Failed,
    Deleted,
}

impl Default for RecordingStatus {
    fn default() -> (r: Self)
        ensures
            r == RecordingStatus::Processing,
    {
        RecordingStatus::Processing
    }
}

impl RecordingStatus {
    /// The name of the variant.
    pub open spec fn spec_label(self) -> &'static str {
        match self {
            RecordingStatus::Processing => "Processing",
            RecordingStatus::Available => "Available",
            RecordingStatus::Failed => "Failed",
            RecordingStatus::Deleted => "Deleted",
        }
    }

    /// The name of the variant.
    pub fn label(self) -> (r: &'static str)
        ensures
            r@ == self.spec_label()@,
    {
        match self {
            RecordingStatus::Processing => "Processing",
            RecordingStatus::Available => "Available",
            RecordingStatus::Failed => "Failed",
            RecordingStatus::Deleted => "Deleted",
        }
    }
}

/// Where the bytes of a recording lie.
#[derive(Debug)]
#[allow(missing_docs)]
pub struct StorageFile {
    pub storage_provider: StorageProvider,
    pub bucket: String,
    pub key: String,
    pub url: String,
    pub content_type: String,
    pub size: u64,
    pub duration: u32,
    pub resolution: Option<String>,
}

/// Where bytes are stored.
#[derive(Debug, Clone, Copy, PartialEq, Eq, Structural)]
#[allow(missing_docs)]
pub enum StorageProvider {
    S3,
    MinIO,
    Local,
}

impl Default for StorageProvider {
    fn default() -> (r: Self)
        ensures
            r == StorageProvider::MinIO,
    {
        StorageProvider::MinIO
    }
}

/// Who may see a recording.
#[derive(Debug, Clone, Copy, PartialEq, Eq, Structural)]
#[allow(missing_docs)]
pub enum Visibility {
    Private,
    Members,
    Organization,
}

impl Default for Visibility {
    fn default() -> (r: Self)
        ensures
            r == Visibility::Private,
    {
        Visibility::Private
    }
}

impl Recording {
    /// The collection that holds these documents.
    pub const COLLECTION: &'static str = "recordings";
}

} // verus!
