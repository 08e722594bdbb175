//! In what order jobs go, and what comes of them.
use vstd::prelude::*;
use crate::api::background_task::{document_name, saved_as, type_by_name};
use crate::api::jobs::{
    ExportFormat,
    ExportStage,
    RecognizeStage,
    export_after,
    export_blame,
    export_name,
    export_params,
    export_type,
    recognize_after,
    recognize_blame,
};
use crate::api::wire::FieldView;
use crate::models::background_task::BackgroundTask;
use crate::oid::{ObjectId, hex_round_trip, oid_hex, oid_parsed};

verus! {

/// An export fetches before it makes anything, looks its authors up one after
/// the other, makes the document once they are all looked up, makes the
/// directory before it writes into it, and completes the task only once the
/// document is written.
pub proof fn exports_go_in_order(stage: ExportStage, authors: nat, i: usize)
    requires
        authors <= usize::MAX,
        stage matches ExportStage::FindUser(k) ==> k < authors,
    ensures
        export_after(stage, authors) != ExportStage::Fetch,
        export_after(stage, authors) == ExportStage::NoteMessages ==> stage == ExportStage::Fetch,
        export_after(stage, authors) == ExportStage::FindUser(0) ==> stage
            == ExportStage::NoteMessages,
        i > 0 ==> (export_after(stage, authors) == ExportStage::FindUser(i) ==> stage
            == ExportStage::FindUser((i - 1) as usize)),
        export_after(stage, authors) == ExportStage::NoteUsers ==> (if authors == 0 {
            stage == ExportStage::NoteMessages
        } else {
            stage == ExportStage::FindUser((authors - 1) as usize)
        }),
        export_after(stage, authors) == ExportStage::Render ==> stage == ExportStage::NoteUsers,
        export_after(stage, authors) == ExportStage::MakeDir ==> stage == ExportStage::Render,
        export_after(stage, authors) == ExportStage::Write ==> stage == ExportStage::MakeDir,
        export_after(stage, authors) == ExportStage::Complete ==> stage == ExportStage::Write,
        export_after(stage, authors) == ExportStage::Done ==> stage == ExportStage::Complete
            || stage == ExportStage::Done,
        export_after(stage, authors) == stage ==> stage == ExportStage::Done,
{
}

/// A recognition reads before it sends, sends before it stores, and completes
/// the task only once what was recognized is stored.
pub proof fn recognitions_go_in_order(stage: RecognizeStage)
    ensures
        recognize_after(stage) != RecognizeStage::NoteReading,
        recognize_after(stage) == RecognizeStage::Read ==> stage == RecognizeStage::NoteReading,
        recognize_after(stage) == RecognizeStage::NoteSending ==> stage == RecognizeStage::Read,
        recognize_after(stage) == RecognizeStage::Recognize ==> stage
            == RecognizeStage::NoteSending,
        recognize_after(stage) == RecognizeStage::NoteUpdating ==> stage
            == RecognizeStage::Recognize,
        recognize_after(stage) == RecognizeStage::Serialize ==> stage
            == RecognizeStage::NoteUpdating,
        recognize_after(stage) == RecognizeStage::Update ==> stage == RecognizeStage::Serialize,
        recognize_after(stage) == RecognizeStage::Complete ==> stage == RecognizeStage::Update,
        recognize_after(stage) == RecognizeStage::Done ==> stage == RecognizeStage::Complete
            || stage == RecognizeStage::Done,
        recognize_after(stage) == stage ==> stage == RecognizeStage::Done,
{
}

proof fn lemma_ending(front: Seq<char>, ending: Seq<char>)
    ensures
        ending.is_suffix_of(front + ending),
{
    assert((front + ending).subrange(front.len() as int, (front + ending).len() as int)
        =~= ending);
}

proof fn lemma_not_sheet(front: Seq<char>)
    ensures
        !".xlsx"@.is_suffix_of(front + ".pdf"@),
{
    reveal_strlit(".xlsx");
    reveal_strlit(".pdf");
    let s = front + ".pdf"@;
    if ".xlsx"@.is_suffix_of(s) {
        let end = s.subrange(s.len() - 5, s.len() as int);
        assert(end[4] == s[s.len() - 1]);
        assert(".xlsx"@[4] == 'x');
        assert(".pdf"@[3] == 'f');
        assert(s[s.len() - 1] == ".pdf"@[3]);
    }
}

/// A document holds what the ending of its name says, whatever stands before
/// the ending.
pub proof fn names_tell_what_they_hold(front: Seq<char>)
    ensures
        type_by_name(front + ".xlsx"@)
            == "application/vnd.openxmlformats-officedocument.spreadsheetml.sheet"@,
        type_by_name(front + ".pdf"@) == "application/pdf"@,
{
    lemma_ending(front, ".xlsx"@);
    lemma_ending(front, ".pdf"@);
    lemma_not_sheet(front);
}

/// A document whose name has neither ending is sent as plain bytes.
pub proof fn other_names_tell_nothing(name: Seq<char>)
    requires
        !".xlsx"@.is_suffix_of(name),
        !".pdf"@.is_suffix_of(name),
    ensures
        type_by_name(name) == "application/octet-stream"@,
{
}

/// An exported document is downloaded as what it was exported as.
pub proof fn exports_download_as_what_they_are(task: ObjectId)
    ensures
        type_by_name(export_name(ExportFormat::Pdf, task)) == "application/pdf"@,
        type_by_name(export_name(ExportFormat::Excel, task))
            == "application/vnd.openxmlformats-officedocument.spreadsheetml.sheet"@,
{
    names_tell_what_they_hold("conversation-export-"@ + oid_hex(task));
}

/// The name of an exported document holds the id of its task, so no two tasks
/// write the same document.
pub proof fn exports_are_named_by_their_task(format: ExportFormat, task: ObjectId)
    ensures
        export_name(format, task).len() > 44,
        oid_parsed(export_name(format, task).subrange(20, 44)) == Some(task),
        export_name(format, task).take(20) == "conversation-export-"@,
{
    reveal_strlit("conversation-export-");
    reveal_strlit(".xlsx");
    reveal_strlit(".pdf");
    hex_round_trip(task);
    assert(export_name(format, task).subrange(20, 44) =~= oid_hex(task));
    assert(export_name(format, task).take(20) =~= "conversation-export-"@);
}

/// The task of an export says which channel is exported, and says that it is a
/// PDF exactly where it is one.
pub proof fn export_tasks_say_what_they_export(format: ExportFormat, channel_id: Seq<char>)
    ensures
        export_params(format, channel_id)[0] == ("channel_id"@, FieldView::Text(channel_id)),
        format == ExportFormat::Pdf <==> export_params(format, channel_id).len() == 2,
        format == ExportFormat::Excel <==> export_params(format, channel_id).len() == 1,
        format == ExportFormat::Pdf ==> export_params(format, channel_id)[1] == (
            "format"@,
            FieldView::Text("pdf"@),
        ),
        "_pdf"@.is_suffix_of(export_type(format)@) <==> format == ExportFormat::Pdf,
        "export_conversation"@.is_prefix_of(export_type(format)@),
{
    reveal_strlit("export_conversation");
    reveal_strlit("export_conversation_pdf");
    reveal_strlit("_pdf");
    let long = "export_conversation_pdf"@;
    let short = "export_conversation"@;
    assert(long.subrange(19, 23) =~= "_pdf"@);
    assert(long.take(19) =~= short);
    assert(short.subrange(15, 19)[0] == 't');
    assert("_pdf"@[0] == '_');
}

/// A failed export says what failed; one to a PDF says so where it cannot be
/// fetched, has no directory or cannot be written.
pub proof fn failed_exports_say_what_failed(format: ExportFormat)
    ensures
        export_blame(format, ExportStage::Fetch) == "Failed to fetch messages: "@,
        export_blame(format, ExportStage::MakeDir) == "Failed to create export dir: "@,
        export_blame(ExportFormat::Excel, ExportStage::NoteMessages)
            == "Failed to update progress: "@,
        export_blame(ExportFormat::Excel, ExportStage::NoteUsers)
            == "Failed to update progress: "@,
        export_blame(ExportFormat::Excel, ExportStage::Render) == "Excel export failed: "@,
        export_blame(ExportFormat::Excel, ExportStage::Write) == "Failed to write export file: "@,
        export_blame(ExportFormat::Excel, ExportStage::Complete) == "Failed to complete task: "@,
        export_blame(ExportFormat::Pdf, ExportStage::Write) == "Failed to write PDF: "@,
        export_blame(ExportFormat::Pdf, ExportStage::Render).len() == 0,
{
    reveal_strlit("");
}

/// A failed recognition says what failed: the file, what was recognized of it,
/// or where that is stored.
pub proof fn failed_recognitions_say_what_failed(stage: RecognizeStage)
    ensures
        recognize_blame(RecognizeStage::Read) == "Failed to read file: "@,
        recognize_blame(RecognizeStage::Serialize) == "Failed to serialize recognized content: "@,
        recognize_blame(RecognizeStage::Update) == "Failed to update file: "@,
        recognize_blame(stage).len() > 0 ==> stage == RecognizeStage::Read || stage
            == RecognizeStage::Serialize || stage == RecognizeStage::Update,
{
    reveal_strlit("");
}

/// A document is saved under the name of the task's document, in quotes.
pub proof fn documents_keep_their_names(t: BackgroundTask, name: Seq<char>)
    ensures
        t.file_name matches Some(n) ==> document_name(t) == n@,
        t.file_name is None ==> document_name(t) == "download"@,
        saved_as(name).len() == name.len() + 23,
        saved_as(name).subrange(22, 22 + name.len() as int) == name,
        saved_as(name).take(22) == "attachment; filename=\""@,
        saved_as(name).last() == '"',
{
    reveal_strlit("attachment; filename=\"");
    reveal_strlit("\"");
    assert(saved_as(name).subrange(22, 22 + name.len() as int) =~= name);
    assert(saved_as(name).take(22) =~= "attachment; filename=\""@);
}

} // verus!
