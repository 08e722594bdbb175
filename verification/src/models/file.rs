//! Uploaded files.
use vstd::prelude::*;
use crate::models::recording::{StorageProvider, Visibility};
use crate::oid::{DateTime, ObjectId};

verus! {

/// An uploaded file.
#[derive(Debug)]
#[allow(missing_docs)]
pub struct File {
    pub id: Option<ObjectId>,
    pub tenant_id: ObjectId,
    pub uploaded_by: ObjectId,
    pub context: FileContext,
    pub filename: String,
    pub display_name: Option<String>,
    pub description: Option<String>,
    pub storage_provider: StorageProvider,
    pub storage_bucket: String,
    pub storage_key: String,
    pub url: String,
    pub content_type: String,
    pub size: u64,
    pub checksum: Option<String>,
    pub dimensions: Option<Dimensions>,
    pub duration: Option<u32>,
    pub thumbnails: Vec<Thumbnail>,
    pub version: u32,
    pub previous_version_id: Option<ObjectId>,
    pub is_current_version: bool,
    pub external_source: Option<ExternalSource>,
    pub scan_status: ScanStatus,
    pub visibility: Visibility,
    pub created_at: DateTime,
    pub updated_at: DateTime,
    pub deleted_at: Option<DateTime>,
}

/// What a file belongs to.
#[derive(Debug)]
#[allow(missing_docs)]
pub struct FileContext {
    pub context_type: FileContextType,
    pub entity_id: ObjectId,
    pub channel_id: Option<ObjectId>,
}

/// The kind of thing that a file belongs to.
#[derive(Debug, Clone, Copy, PartialEq, Eq, Structural)]
#[allow(missing_docs)]
pub enum FileContextType {
    Message,
    Document,
    Profile,
    Channel,
    Conference,
}

/// The size of an image.
#[derive(Debug)]
#[allow(missing_docs)]
pub struct Dimensions {
    pub width: u32,
    pub height: u32,
}

/// A small picture of a file.
#[derive(Debug)]
#[allow(missing_docs)]
pub struct Thumbnail {
    pub size: String,
    pub url: String,
    pub width: u32,
    pub height: u32,
}

/// Where a file was taken from.
#[derive(Debug)]
#[allow(missing_docs)]
pub struct ExternalSource {
    pub provider: CloudProvider,
    pub external_id: String,
    pub external_url: String,
    pub sync_status: SyncStatus,
    pub last_synced_at: Option<DateTime>,
}

/// A cloud drive.
#[derive(Debug, Clone, Copy, PartialEq, Eq, Structural)]
#[allow(missing_docs)]
pub enum CloudProvider {
    GoogleDrive,
    OneDrive,
    Dropbox,
}

/// Whether a file agrees with its source.
#[derive(Debug, Clone, Copy, PartialEq, Eq, Structural)]
#[allow(missing_docs)]
pub enum SyncStatus {
    Pending,
    Synced,
    Failed,
    Outdated,
}

impl Default for SyncStatus {
    fn default() -> (r: Self)
        ensures
            r == SyncStatus::Pending,
    {
        SyncStatus::Pending
    }
}

/// What the malware scan found.
#[derive(Debug, Clone, Copy, PartialEq, Eq, Structural)]
#[allow(missing_docs)]
pub enum ScanStatus {
    Pending,
    Clean,
    Malware,
    Skipped,
}

impl Default for ScanStatus {
    fn default() -> (r: Self)
        ensures
            r == ScanStatus::Pending,
    {
        ScanStatus::Pending
    }
}

impl File {
    /// The collection that holds these documents.
    pub const COLLECTION: &'static str = "files";
}

/// The version of a file that states none.
pub fn default_version() -> (r: u32)
    ensures
        r == 1,
{
    1
}

} // verus!
