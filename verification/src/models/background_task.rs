//! Background tasks.
use vstd::prelude::*;
use crate::oid::{DateTime, ObjectId};

verus! {

/// A task that runs behind a request.
#[derive(Debug)]
#[allow(missing_docs)]
pub struct BackgroundTask {
    pub id: Option<ObjectId>,
    pub tenant_id: ObjectId,
    pub user_id: ObjectId,
    pub task_type: String,
    pub category: TaskCategory,
    pub status: TaskStatus,
    pub params: String,
    pub logs: Vec<String>,
    pub progress: u8,
    pub file_path: Option<String>,
    pub file_name: Option<String>,
    pub error: Option<String>,
    pub started_at: Option<DateTime>,
    pub completed_at: Option<DateTime>,
    pub expires_at: DateTime,
    pub created_at: DateTime,
    pub updated_at: DateTime,
}

/// What a background task does.
#[derive(Debug, Clone, Copy, PartialEq, Eq, Structural)]
#[allow(missing_docs)]
pub enum TaskCategory {
    Recording,
    Transcription,
    Export,
    Import,
    Recognition,
}

/// How far a background task is.
#[derive(Debug, Clone, Copy, PartialEq, Eq, Structural)]
#[allow(missing_docs)]
pub enum TaskStatus {
    Pending,
    Processing,
    Completed,
    Failed,
    Expired,
}

impl Default for TaskStatus {
    fn default() -> (r: Self)
        ensures
            r == TaskStatus::Pending,
    {
        TaskStatus::Pending
    }
}

impl TaskStatus {
    /// The name of the variant.
    pub open spec fn spec_label(self) -> &'static str {
        match self {
            TaskStatus::Pending => "Pending",
            TaskStatus::Processing => "Processing",
            TaskStatus::Completed => "Completed",
            TaskStatus::Failed => "Failed",
            TaskStatus::Expired => "Expired",
        }
    }

    /// The name of the variant.
    pub fn label(self) -> (r: &'static str)
        ensures
            r@ == self.spec_label()@,
    {
        match self {
            TaskStatus::Pending => "Pending",
            TaskStatus::Processing => "Processing",
            TaskStatus::Completed => "Completed",
            TaskStatus::Failed => "Failed",
            TaskStatus::Expired => "Expired",
        }
    }
}

impl BackgroundTask {
    /// The collection that holds these documents.
    pub const COLLECTION: &'static str = "background_tasks";
}

} // verus!
