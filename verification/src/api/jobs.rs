//! Background jobs: exporting a conversation, recognizing a document.
//!
//! A job says what is to be done now (`action`) and goes on by what came of it
//! (`next`). What the steps produce stays with whoever runs the job.
use vstd::prelude::*;
use crate::api::error::{ApiError, ErrorKind};
use crate::api::message::{authors_of, collect_author_ids, RoomMessage};
use crate::api::scope::{Admitted, Asked, item_asked, item_request};
use crate::api::wire::{Body, FieldView};
use crate::models::background_task::TaskCategory;
use crate::oid::{ObjectId, oid_hex, oid_value};

verus! {

/// The conversation to export as a spreadsheet.
#[derive(Debug)]
#[allow(missing_docs)]
pub struct ExportConversationRequest {
    pub channel_id: String,
}

/// The conversation to export as a PDF.
#[derive(Debug)]
#[allow(missing_docs)]
pub struct ExportPdfRequest {
    pub channel_id: String,
}

/// A task to create.
#[derive(Debug)]
#[allow(missing_docs)]
pub struct NewTask {
    pub tenant_id: ObjectId,
    pub user_id: ObjectId,
    pub task_type: &'static str,
    pub category: TaskCategory,
    pub params: Body,
}

/// What a conversation is exported as.
#[derive(Debug, Clone, Copy, PartialEq, Eq, Structural)]
pub enum ExportFormat {
    /// A spreadsheet.
    Excel,
    /// A PDF.
    Pdf,
}

/// A request to export a channel of a tenant.
pub fn export_request(tenant_id: &str, channel_id: &str, user: ObjectId) -> (r: Result<
    Asked<ObjectId>,
    ApiError,
>)
    ensures
        match r {
            Ok(a) => item_asked(tenant_id@, channel_id@, "channel_id"@, user) == Ok::<
                _,
                (ErrorKind, Seq<char>),
            >(a),
            Err(e) => item_asked(tenant_id@, channel_id@, "channel_id"@, user) == Err::<
                Asked<ObjectId>,
                _,
            >(e@),
        },
{
    item_request(tenant_id, channel_id, "channel_id", user)
}

/// What a task is called that exports a conversation.
pub open spec fn export_type(format: ExportFormat) -> &'static str {
    match format {
        ExportFormat::Excel => "export_conversation",
        ExportFormat::Pdf => "export_conversation_pdf",
    }
}

/// What a task is told that exports a conversation.
pub open spec fn export_params(format: ExportFormat, channel_id: Seq<char>) -> Seq<
    (Seq<char>, FieldView),
> {
    match format {
        ExportFormat::Excel => seq![("channel_id"@, FieldView::Text(channel_id))],
        ExportFormat::Pdf => seq![
            ("channel_id"@, FieldView::Text(channel_id)),
            ("format"@, FieldView::Text("pdf"@)),
        ],
    }
}

/// The task that exports a channel.
pub fn export_task(asked: &Admitted<ObjectId>, channel_id: &str, format: ExportFormat) -> (r:
    NewTask)
    ensures
        r.tenant_id == asked.request().tenant,
        r.user_id == asked.request().user,
        r.task_type@ == export_type(format)@,
        r.category == TaskCategory::Export,
        r.params@ == export_params(format, channel_id@),
{
    let params: Body = match format {
        ExportFormat::Excel => Body::new().text("channel_id", channel_id),
        ExportFormat::Pdf => Body::new().text("channel_id", channel_id).text("format", "pdf"),
    };
    NewTask {
        tenant_id: asked.tenant(),
        user_id: asked.user(),
        task_type: match format {
            ExportFormat::Excel => "export_conversation",
            ExportFormat::Pdf => "export_conversation_pdf",
        },
        category: TaskCategory::Export,
        params,
    }
}

/// The answer to a request whose task was created and waits to run.
pub fn pending(task: ObjectId) -> (r: Body)
    ensures
        r@ == seq![
            ("task_id"@, FieldView::Text(oid_hex(task))),
            ("status"@, FieldView::Text("pending"@)),
        ],
{
    Body::new().id("task_id", task).text("status", "pending")
}

/// How far an export is.
#[derive(Debug, Clone, Copy, PartialEq, Eq, Structural)]
#[allow(missing_docs)]
pub enum ExportStage {
    Fetch,
    NoteMessages,
    FindUser(usize),
    NoteUsers,
    Render,
    MakeDir,
    Write,
    Complete,
    Done,
}

/// An export that is under way.
#[derive(Debug)]
pub struct ExportJob {
    /// What the conversation is exported as.
    pub format: ExportFormat,
    /// The task that runs the export.
    pub task: ObjectId,
    /// The channel to export.
    pub channel: ObjectId,
    /// The authors of the messages that were fetched, each of them once.
    pub authors: Vec<ObjectId>,
    /// How far the export is.
    pub stage: ExportStage,
}

/// What is to be done for an export.
#[derive(Debug)]
pub enum ExportAction {
    /// Fetch one page of the channel's messages.
    FetchMessages(ObjectId, u64, u64),
    /// Note the task's progress, with a line for its log.
    Progress(u8, &'static str),
    /// Look up a user; one who is not found has no entry.
    FindUser(ObjectId),
    /// Make the document.
    Render,
    /// Make the directory of this name under that of the uploads.
    MakeDir(&'static str),
    /// Write the document into that directory, under this name.
    Write(String),
    /// Complete the task with the document's path and this name.
    Complete(String),
    /// Nothing.
    Nothing,
}

/// The first page of up to ten thousand messages.
pub const EXPORT_PAGE: u64 = 1;

/// The messages that an export reads at most.
pub const EXPORT_LIMIT: u64 = 10000;

/// The name of the exported document.
pub open spec fn export_name(format: ExportFormat, task: ObjectId) -> Seq<char> {
    "conversation-export-"@ + oid_hex(task) + match format {
        ExportFormat::Excel => ".xlsx"@,
        ExportFormat::Pdf => ".pdf"@,
    }
}

/// The name of the exported document.
pub fn export_file_name(format: ExportFormat, task: ObjectId) -> (r: String)
    ensures
        r@ == export_name(format, task),
{
    let hex: String = task.to_hex();
    match format {
        ExportFormat::Excel => crate::text::cat3("conversation-export-", hex.as_str(), ".xlsx"),
        ExportFormat::Pdf => crate::text::cat3("conversation-export-", hex.as_str(), ".pdf"),
    }
}

/// What the error of a failed stage begins with.
pub open spec fn export_blame(format: ExportFormat, stage: ExportStage) -> Seq<char> {
    match (stage, format) {
        (ExportStage::Fetch, _) => "Failed to fetch messages: "@,
        (ExportStage::NoteMessages, ExportFormat::Excel) => "Failed to update progress: "@,
        (ExportStage::NoteUsers, ExportFormat::Excel) => "Failed to update progress: "@,
        (ExportStage::Render, ExportFormat::Excel) => "Excel export failed: "@,
        (ExportStage::MakeDir, _) => "Failed to create export dir: "@,
        (ExportStage::Write, ExportFormat::Excel) => "Failed to write export file: "@,
        (ExportStage::Write, ExportFormat::Pdf) => "Failed to write PDF: "@,
        (ExportStage::Complete, ExportFormat::Excel) => "Failed to complete task: "@,
        _ => ""@,
    }
}

/// The stage after one that went well.
pub open spec fn export_after(stage: ExportStage, authors: nat) -> ExportStage {
    match stage {
        ExportStage::Fetch => ExportStage::NoteMessages,
        ExportStage::NoteMessages => if authors > 0 {
            ExportStage::FindUser(0)
        } else {
            ExportStage::NoteUsers
        },
        ExportStage::FindUser(i) => if i + 1 < authors {
            ExportStage::FindUser((i + 1) as usize)
        } else {
            ExportStage::NoteUsers
        },
        ExportStage::NoteUsers => ExportStage::Render,
        ExportStage::Render => ExportStage::MakeDir,
        ExportStage::MakeDir => ExportStage::Write,
        ExportStage::Write => ExportStage::Complete,
        ExportStage::Complete => ExportStage::Done,
        ExportStage::Done => ExportStage::Done,
    }
}

impl ExportJob {
    /// No author is there twice, and one who is to be looked up is one of
    /// them.
    pub open spec fn wf(self) -> bool {
        &&& self.authors@.no_duplicates()
        &&& self.stage matches ExportStage::FindUser(i) ==> i < self.authors@.len()
    }

    /// An export that is to begin.
    pub fn new(format: ExportFormat, task: ObjectId, channel: ObjectId) -> (r: ExportJob)
        ensures
            r.wf(),
            r.format == format,
            r.task == task,
            r.channel == channel,
            r.authors@.len() == 0,
            r.stage == ExportStage::Fetch,
    {
        ExportJob { format, task, channel, authors: Vec::new(), stage: ExportStage::Fetch }
    }

    /// What is to be done now.
    pub fn action(&self) -> (r: ExportAction)
        requires
            self.wf(),
        ensures
            match self.stage {
                ExportStage::Fetch => r == ExportAction::FetchMessages(self.channel, 1, 10000),
                ExportStage::NoteMessages => (r matches ExportAction::Progress(n, line) && n == 30
                    && line@ == "Fetched messages"@),
                ExportStage::FindUser(i) => r == ExportAction::FindUser(self.authors@[i as int]),
                ExportStage::NoteUsers => (r matches ExportAction::Progress(n, line) && n == 60
                    && line@ == (match self.format {
                    ExportFormat::Excel => "Fetched user data"@,
                    ExportFormat::Pdf => "Generating PDF"@,
                })),
                ExportStage::Render => r is Render,
                ExportStage::MakeDir => (r matches ExportAction::MakeDir(d) && d@ == "exports"@),
                ExportStage::Write => (r matches ExportAction::Write(n) && n@ == export_name(
                    self.format,
                    self.task,
                )),
                ExportStage::Complete => (r matches ExportAction::Complete(n) && n@
                    == export_name(self.format, self.task)),
                ExportStage::Done => r is Nothing,
            },
    {
        match self.stage {
            ExportStage::Fetch => ExportAction::FetchMessages(
                self.channel,
                EXPORT_PAGE,
                EXPORT_LIMIT,
            ),
            ExportStage::NoteMessages => ExportAction::Progress(30, "Fetched messages"),
            ExportStage::FindUser(i) => ExportAction::FindUser(self.authors[i]),
            ExportStage::NoteUsers => match self.format {
                ExportFormat::Excel => ExportAction::Progress(60, "Fetched user data"),
                ExportFormat::Pdf => ExportAction::Progress(60, "Generating PDF"),
            },
            ExportStage::Render => ExportAction::Render,
            ExportStage::MakeDir => ExportAction::MakeDir("exports"),
            ExportStage::Write => ExportAction::Write(export_file_name(self.format, self.task)),
            ExportStage::Complete => ExportAction::Complete(
                export_file_name(self.format, self.task),
            ),
            ExportStage::Done => ExportAction::Nothing,
        }
    }

    /// Goes on with the authors of the messages that were fetched, or ends
    /// with the error.
    pub fn fetched(self, messages: Result<&Vec<RoomMessage>, String>) -> (r: Result<
        ExportJob,
        String,
    >)
        requires
            self.stage == ExportStage::Fetch,
        ensures
            match messages {
                Ok(list) => r matches Ok(job) && {
                    &&& job.wf()
                    &&& job.format == self.format
                    &&& job.task == self.task
                    &&& job.channel == self.channel
                    &&& authors_of(job.authors@, list@)
                    &&& job.stage == ExportStage::NoteMessages
                },
                Err(e) => r matches Err(m) && m@ == export_blame(self.format, self.stage) + e@,
            },
    {
        match messages {
            Ok(list) => {
                let authors: Vec<ObjectId> = collect_author_ids(list);
                proof {
                    assert forall|i: int, j: int|
                        0 <= i < authors@.len() && 0 <= j < authors@.len() && i
                            != j implies #[trigger] authors@[i] != #[trigger] authors@[j] by {
                        assert(oid_value(authors@[i]) != oid_value(authors@[j]));
                    }
                }
                Ok(
                    ExportJob {
                        format: self.format,
                        task: self.task,
                        channel: self.channel,
                        authors,
                        stage: ExportStage::NoteMessages,
                    },
                )
            },
            Err(e) => Err(crate::text::cat2("Failed to fetch messages: ", e.as_str())),
        }
    }

    /// Goes on after what was to be done went well, or ends with the error. A
    /// user who is not found ends nothing.
    pub fn next(self, outcome: Result<(), String>) -> (r: Result<ExportJob, String>)
        requires
            self.wf(),
            self.stage != ExportStage::Fetch,
            self.stage != ExportStage::Done,
        ensures
            outcome is Ok || self.stage is FindUser ==> (r matches Ok(job) && {
                &&& job.wf()
                &&& job.format == self.format
                &&& job.task == self.task
                &&& job.channel == self.channel
                &&& job.authors == self.authors
                &&& job.stage == export_after(self.stage, self.authors@.len())
            }),
            !(self.stage is FindUser) ==> (outcome matches Err(e) ==> (r matches Err(m) && m@
                == export_blame(self.format, self.stage) + e@)),
    {
        let count: usize = self.authors.len();
        let blame: &str = match self.stage {
            ExportStage::MakeDir => "Failed to create export dir: ",
            ExportStage::NoteMessages | ExportStage::NoteUsers => match self.format {
                ExportFormat::Excel => "Failed to update progress: ",
                ExportFormat::Pdf => "",
            },
            ExportStage::Render => match self.format {
                ExportFormat::Excel => "Excel export failed: ",
                ExportFormat::Pdf => "",
            },
            ExportStage::Write => match self.format {
                ExportFormat::Excel => "Failed to write export file: ",
                ExportFormat::Pdf => "Failed to write PDF: ",
            },
            ExportStage::Complete => match self.format {
                ExportFormat::Excel => "Failed to complete task: ",
                ExportFormat::Pdf => "",
            },
            _ => "",
        };
        let stage: ExportStage = match self.stage {
            ExportStage::Fetch => ExportStage::NoteMessages,
            ExportStage::NoteMessages => if count > 0 {
                ExportStage::FindUser(0)
            } else {
                ExportStage::NoteUsers
            },
            ExportStage::FindUser(i) => if i + 1 < count {
                ExportStage::FindUser(i + 1)
            } else {
                ExportStage::NoteUsers
            },
            ExportStage::NoteUsers => ExportStage::Render,
            ExportStage::Render => ExportStage::MakeDir,
            ExportStage::MakeDir => ExportStage::Write,
            ExportStage::Write => ExportStage::Complete,
            ExportStage::Complete => ExportStage::Done,
            ExportStage::Done => ExportStage::Done,
        };
        let search: bool = match self.stage {
            ExportStage::FindUser(_) => true,
            _ => false,
        };
        match outcome {
            Err(e) => {
                if search {
                    Ok(ExportJob { stage, ..self })
                } else {
                    Err(crate::text::cat2(blame, e.as_str()))
                }
            },
            Ok(()) => Ok(ExportJob { stage, ..self }),
        }
    }
}

/// How far a stage is.
pub open spec fn export_rank(stage: ExportStage, authors: nat) -> int {
    match stage {
        ExportStage::Fetch => 0,
        ExportStage::NoteMessages => 1,
        ExportStage::FindUser(i) => 2 + i,
        ExportStage::NoteUsers => authors as int + 2,
        ExportStage::Render => authors as int + 3,
        ExportStage::MakeDir => authors as int + 4,
        ExportStage::Write => authors as int + 5,
        ExportStage::Complete => authors as int + 6,
        ExportStage::Done => authors as int + 7,
    }
}

/// An export goes through its stages one by one, looks up every author once,
/// and is done after as many steps as there are authors and seven more.
pub proof fn exports_come_to_an_end(stage: ExportStage, authors: nat)
    requires
        stage != ExportStage::Done,
        stage matches ExportStage::FindUser(i) ==> i < authors,
        authors <= usize::MAX,
    ensures
        export_rank(export_after(stage, authors), authors) == export_rank(stage, authors) + 1,
        export_rank(ExportStage::Done, authors) == authors + 7,
{
}

/// A request to recognize a file of a tenant.
pub fn recognize_request(tenant_id: &str, file_id: &str, user: ObjectId) -> (r: Result<
    Asked<ObjectId>,
    ApiError,
>)
    ensures
        match r {
            Ok(a) => item_asked(tenant_id@, file_id@, "file_id"@, user) == Ok::<
                _,
                (ErrorKind, Seq<char>),
            >(a),
            Err(e) => item_asked(tenant_id@, file_id@, "file_id"@, user) == Err::<
                Asked<ObjectId>,
                _,
            >(e@),
        },
{
    item_request(tenant_id, file_id, "file_id", user)
}

/// The answer where documents cannot be recognized for want of a key to the
/// service that does it.
pub open spec fn no_key(service: Seq<char>) -> (ErrorKind, Seq<char>) {
    (
        ErrorKind::BadRequest,
        "Document recognition not configured (missing "@ + service + " API key)"@,
    )
}

/// Whether documents can be recognized: only where a key to the service that
/// does it is configured.
pub fn recognition_available(available: bool, service: &str) -> (r: Result<(), ApiError>)
    ensures
        r is Ok <==> available,
        r matches Err(e) ==> e@ == no_key(service@),
{
    if available {
        Ok(())
    } else {
        Err(
            ApiError::BadRequest(
                crate::text::cat3(
                    "Document recognition not configured (missing ",
                    service,
                    " API key)",
                ),
            ),
        )
    }
}

/// The task that recognizes a file.
pub fn recognize_task(asked: &Admitted<ObjectId>, file_id: &str) -> (r: NewTask)
    ensures
        r.tenant_id == asked.request().tenant,
        r.user_id == asked.request().user,
        r.task_type@ == "document_recognition"@,
        r.category == TaskCategory::Recognition,
        r.params@ == seq![("file_id"@, FieldView::Text(file_id@))],
{
    NewTask {
        tenant_id: asked.tenant(),
        user_id: asked.user(),
        task_type: "document_recognition",
        category: TaskCategory::Recognition,
        params: Body::new().text("file_id", file_id),
    }
}

/// How far a recognition is.
#[derive(Debug, Clone, Copy, PartialEq, Eq, Structural)]
#[allow(missing_docs)]
pub enum RecognizeStage {
    NoteReading,
    Read,
    NoteSending,
    Recognize,
    NoteUpdating,
    Serialize,
    Update,
    Complete,
    Done,
}

/// What is to be done for a recognition.
#[derive(Debug)]
pub enum RecognizeAction {
    /// Note the task's progress, with a line for its log.
    Progress(u8, String),
    /// Read the file from where it is stored.
    Read,
    /// Have the document recognized.
    Recognize,
    /// Put what was recognized into a document.
    Serialize,
    /// Store it with the file.
    Update(ObjectId),
    /// Complete the task, without a document of its own.
    Complete,
    /// Nothing.
    Nothing,
}

/// A recognition that is under way.
#[derive(Debug, Clone, Copy, PartialEq, Eq, Structural)]
pub struct RecognizeJob {
    /// The task that runs the recognition.
    pub task: ObjectId,
    /// The file to recognize.
    pub file: ObjectId,
    /// How far the recognition is.
    pub stage: RecognizeStage,
}

/// What the error of a failed stage begins with.
pub open spec fn recognize_blame(stage: RecognizeStage) -> Seq<char> {
    match stage {
        RecognizeStage::Read => "Failed to read file: "@,
        RecognizeStage::Serialize => "Failed to serialize recognized content: "@,
        RecognizeStage::Update => "Failed to update file: "@,
        _ => ""@,
    }
}

/// The stage after one that went well.
pub open spec fn recognize_after(stage: RecognizeStage) -> RecognizeStage {
    match stage {
        RecognizeStage::NoteReading => RecognizeStage::Read,
        RecognizeStage::Read => RecognizeStage::NoteSending,
        RecognizeStage::NoteSending => RecognizeStage::Recognize,
        RecognizeStage::Recognize => RecognizeStage::NoteUpdating,
        RecognizeStage::NoteUpdating => RecognizeStage::Serialize,
        RecognizeStage::Serialize => RecognizeStage::Update,
        RecognizeStage::Update => RecognizeStage::Complete,
        RecognizeStage::Complete => RecognizeStage::Done,
        RecognizeStage::Done => RecognizeStage::Done,
    }
}

impl RecognizeJob {
    /// A recognition that is to begin.
    pub fn new(task: ObjectId, file: ObjectId) -> (r: RecognizeJob)
        ensures
            r == (RecognizeJob { task, file, stage: RecognizeStage::NoteReading }),
    {
        RecognizeJob { task, file, stage: RecognizeStage::NoteReading }
    }

    /// What is to be done now, with the service that recognizes documents.
    pub fn action(self, service: &str) -> (r: RecognizeAction)
        ensures
            match self.stage {
                RecognizeStage::NoteReading => (r matches RecognizeAction::Progress(n, line) && n
                    == 10 && line@ == "Reading file"@),
                RecognizeStage::Read => r is Read,
                RecognizeStage::NoteSending => (r matches RecognizeAction::Progress(n, line) && n
                    == 30 && line@ == "Sending to "@ + service@ + " API"@),
                RecognizeStage::Recognize => r is Recognize,
                RecognizeStage::NoteUpdating => (r matches RecognizeAction::Progress(n, line) && n
                    == 80 && line@ == "Updating file record"@),
                RecognizeStage::Serialize => r is Serialize,
                RecognizeStage::Update => r == RecognizeAction::Update(self.file),
                RecognizeStage::Complete => r is Complete,
                RecognizeStage::Done => r is Nothing,
            },
    {
        match self.stage {
            RecognizeStage::NoteReading => RecognizeAction::Progress(10, "Reading file".to_owned()),
            RecognizeStage::Read => RecognizeAction::Read,
            RecognizeStage::NoteSending => RecognizeAction::Progress(
                30,
                crate::text::cat3("Sending to ", service, " API"),
            ),
            RecognizeStage::Recognize => RecognizeAction::Recognize,
            RecognizeStage::NoteUpdating => RecognizeAction::Progress(
                80,
                "Updating file record".to_owned(),
            ),
            RecognizeStage::Serialize => RecognizeAction::Serialize,
            RecognizeStage::Update => RecognizeAction::Update(self.file),
            RecognizeStage::Complete => RecognizeAction::Complete,
            RecognizeStage::Done => RecognizeAction::Nothing,
        }
    }

    /// Goes on after what was to be done went well, or ends with the error.
    pub fn next(self, outcome: Result<(), String>) -> (r: Result<RecognizeJob, String>)
        requires
            self.stage != RecognizeStage::Done,
        ensures
            match outcome {
                Ok(()) => r == Ok::<RecognizeJob, String>(
                    RecognizeJob { stage: recognize_after(self.stage), ..self },
                ),
                Err(e) => r matches Err(m) && m@ == recognize_blame(self.stage) + e@,
            },
    {
        let (stage, blame): (RecognizeStage, &str) = match self.stage {
            RecognizeStage::NoteReading => (RecognizeStage::Read, ""),
            RecognizeStage::Read => (RecognizeStage::NoteSending, "Failed to read file: "),
            RecognizeStage::NoteSending => (RecognizeStage::Recognize, ""),
            RecognizeStage::Recognize => (RecognizeStage::NoteUpdating, ""),
            RecognizeStage::NoteUpdating => (RecognizeStage::Serialize, ""),
            RecognizeStage::Serialize => (
                RecognizeStage::Update,
                "Failed to serialize recognized content: ",
            ),
            RecognizeStage::Update => (RecognizeStage::Complete, "Failed to update file: "),
            RecognizeStage::Complete => (RecognizeStage::Done, ""),
            RecognizeStage::Done => (RecognizeStage::Done, ""),
        };
        match outcome {
            Ok(()) => Ok(RecognizeJob { stage, ..self }),
            Err(e) => Err(crate::text::cat2(blame, e.as_str())),
        }
    }
}

/// What a recognition has noted last, in percent.
pub open spec fn recognize_progress(stage: RecognizeStage) -> int {
    match stage {
        RecognizeStage::NoteReading => 0,
        RecognizeStage::Read | RecognizeStage::NoteSending => 10,
        RecognizeStage::Recognize | RecognizeStage::NoteUpdating => 30,
        RecognizeStage::Serialize | RecognizeStage::Update | RecognizeStage::Complete
        | RecognizeStage::Done => 80,
    }
}

/// The progress that a recognition notes never falls.
pub proof fn recognition_moves_forward(stage: RecognizeStage)
    ensures
        recognize_progress(stage) <= recognize_progress(recognize_after(stage)),
        recognize_after(stage) == stage <==> stage == RecognizeStage::Done,
{
}

} // verus!
