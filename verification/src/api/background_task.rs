//! Background tasks and the documents they leave.
use vstd::prelude::*;
use crate::api::error::{ApiError, ErrorKind, forbidden, internal, not_found};
use crate::api::scope::{id_in, parse_id};
use crate::api::wire::{Paginated, same_place};
use crate::models::background_task::BackgroundTask;
use crate::oid::{ObjectId, oid_hex, time_text};
use crate::text::{ends_with, opt_view};

verus! {

/// A background task, for clients.
#[derive(Debug)]
#[allow(missing_docs)]
pub struct TaskResponse {
    pub id: String,
    pub task_type: String,
    pub status: String,
    pub progress: u8,
    pub logs: Vec<String>,
    pub file_name: Option<String>,
    pub error: Option<String>,
    pub created_at: String,
}

/// A background task as a client sees it.
pub open spec fn shows(r: TaskResponse, m: BackgroundTask) -> bool {
    &&& m.id matches Some(id) && r.id@ == oid_hex(id)
    &&& r.task_type@ == m.task_type@
    &&& r.status@ == m.status.spec_label()@
    &&& r.progress == m.progress
    &&& r.logs@ == m.logs@
    &&& opt_view(r.file_name) == opt_view(m.file_name)
    &&& opt_view(r.error) == opt_view(m.error)
    &&& r.created_at@ == time_text(m.created_at)
}

/// A background task as a client sees it.
pub fn to_response(m: &BackgroundTask) -> (r: TaskResponse)
    requires
        m.id is Some,
    ensures
        shows(r, *m),
{
    TaskResponse {
        id: m.id.unwrap().to_hex(),
        task_type: m.task_type.clone(),
        status: m.status.label().to_owned(),
        progress: m.progress,
        logs: crate::text::copy_list(&m.logs),
        file_name: crate::text::copy_opt(&m.file_name),
        error: crate::text::copy_opt(&m.error),
        created_at: m.created_at.to_text(),
    }
}

/// Every one of them has its id.
pub open spec fn identified(list: Seq<BackgroundTask>) -> bool {
    forall|i: int| 0 <= i < list.len() ==> (#[trigger] list[i]).id is Some
}

/// Background tasks as a client sees them, one for one.
pub open spec fn shows_all(r: Seq<TaskResponse>, list: Seq<BackgroundTask>) -> bool {
    &&& r.len() == list.len()
    &&& forall|i: int| 0 <= i < r.len() ==> shows(#[trigger] r[i], list[i])
}

/// Background tasks as a client sees them, one for one.
pub fn responses(items: &Vec<BackgroundTask>) -> (r: Vec<TaskResponse>)
    requires
        identified(items@),
    ensures
        shows_all(r@, items@),
{
    let mut out: Vec<TaskResponse> = Vec::new();
    let mut i: usize = 0;
    while i < items.len()
        invariant
            i <= items@.len(),
            identified(items@),
            shows_all(out@, items@.take(i as int)),
        decreases items@.len() - i,
    {
        let shown: TaskResponse = to_response(&items[i]);
        out.push(shown);
        i = i + 1;
    }
    out
}

/// One page of the background tasks of a user.
pub fn list(page: Paginated<BackgroundTask>) -> (r: Paginated<TaskResponse>)
    requires
        identified(page.items@),
    ensures
        same_place(r, page),
        shows_all(r.items@, page.items@),
{
    Paginated {
        items: responses(&page.items),
        total: page.total,
        page: page.page,
        per_page: page.per_page,
        total_pages: page.total_pages,
    }
}

/// The id of the task that is asked for; the tenant goes unread.
pub fn task_request(task_id: &str) -> (r: Result<ObjectId, ApiError>)
    ensures
        match r {
            Ok(o) => id_in(task_id@, "task_id"@) == Ok::<_, (ErrorKind, Seq<char>)>(o),
            Err(e) => id_in(task_id@, "task_id"@) == Err::<ObjectId, _>(e@),
        },
{
    parse_id(task_id, "task_id")
}

/// The answer to a user who asks for another's task.
pub open spec fn not_yours() -> (ErrorKind, Seq<char>) {
    (ErrorKind::Forbidden, "Not your task"@)
}

/// The task as its user sees it; nobody else does.
pub fn get(user: ObjectId, task: &BackgroundTask) -> (r: Result<TaskResponse, ApiError>)
    requires
        task.id is Some,
    ensures
        match r {
            Ok(t) => task.user_id == user && shows(t, *task),
            Err(e) => task.user_id != user && e@ == not_yours(),
        },
{
    if task.user_id != user {
        return Err(forbidden("Not your task"));
    }
    Ok(to_response(task))
}

/// A document to send: where it is, what it is called, what it holds.
#[derive(Debug)]
#[allow(missing_docs)]
pub struct Download {
    pub path: String,
    pub content_type: &'static str,
    pub disposition: String,
}

/// What a document of this name holds.
pub open spec fn type_by_name(name: Seq<char>) -> Seq<char> {
    if ".xlsx"@.is_suffix_of(name) {
        "application/vnd.openxmlformats-officedocument.spreadsheetml.sheet"@
    } else if ".pdf"@.is_suffix_of(name) {
        "application/pdf"@
    } else {
        "application/octet-stream"@
    }
}

/// What a document of this name holds.
pub fn content_type(name: &str) -> (r: &'static str)
    ensures
        r@ == type_by_name(name@),
{
    if ends_with(name, ".xlsx") {
        "application/vnd.openxmlformats-officedocument.spreadsheetml.sheet"
    } else if ends_with(name, ".pdf") {
        "application/pdf"
    } else {
        "application/octet-stream"
    }
}

/// The header by which a document is saved under its name.
pub open spec fn saved_as(name: Seq<char>) -> Seq<char> {
    "attachment; filename=\""@ + name + "\""@
}

/// The name under which a task's document is saved.
pub open spec fn document_name(t: BackgroundTask) -> Seq<char> {
    match t.file_name {
        Some(n) => n@,
        None => "download"@,
    }
}

/// The document of a task, for its user; nobody else gets it.
pub fn download(user: ObjectId, task: &BackgroundTask) -> (r: Result<Download, ApiError>)
    ensures
        match r {
            Ok(d) => {
                &&& task.user_id == user
                &&& opt_view(task.file_path) == Some(d.path@)
                &&& d.content_type@ == type_by_name(document_name(*task))
                &&& d.disposition@ == saved_as(document_name(*task))
            },
            Err(e) => {
                ||| task.user_id != user && e@ == not_yours()
                ||| task.user_id == user && task.file_path is None && e@ == (
                    ErrorKind::NotFound,
                    "Task has no file"@,
                )
            },
        },
{
    if task.user_id != user {
        return Err(forbidden("Not your task"));
    }
    match &task.file_path {
        None => Err(not_found("Task has no file")),
        Some(path) => {
            let name: String = match &task.file_name {
                Some(n) => n.clone(),
                None => "download".to_owned(),
            };
            Ok(
                Download {
                    path: path.clone(),
                    content_type: content_type(name.as_str()),
                    disposition: crate::text::cat3(
                        "attachment; filename=\"",
                        name.as_str(),
                        "\"",
                    ),
                },
            )
        },
    }
}

/// The answer when a document cannot be opened, or cannot be read to its end.
pub fn unreadable(opened: bool, cause: &str) -> (r: ApiError)
    ensures
        r@ == (if opened {
            (ErrorKind::Internal, "Failed to read file: "@ + cause@)
        } else {
            (ErrorKind::NotFound, "File not found on disk"@)
        }),
{
    if opened {
        internal("Failed to read file: ", cause)
    } else {
        not_found("File not found on disk")
    }
}

/// What a client sees of a task is its own.
pub proof fn tasks_show_their_own(r: TaskResponse, m: BackgroundTask)
    requires
        shows(r, m),
    ensures
        crate::oid::oid_parsed(r.id@) == m.id,
        r.task_type@ == m.task_type@,
        r.status@ == m.status.spec_label()@,
        r.progress == m.progress,
        r.logs@ == m.logs@,
        r.file_name is Some <==> m.file_name is Some,
        r.file_name matches Some(s) ==> s@ == m.file_name.unwrap()@,
        r.error is Some <==> m.error is Some,
        r.error matches Some(s) ==> s@ == m.error.unwrap()@,
        r.created_at@ == time_text(m.created_at),
{
    crate::oid::hex_round_trip(m.id.unwrap());
}

/// Of a list everything is shown, one for one and in its order.
pub proof fn tasks_are_shown_in_order(r: Seq<TaskResponse>, list: Seq<BackgroundTask>, i: int)
    requires
        shows_all(r, list),
    ensures
        r.len() == list.len(),
        0 <= i < r.len() ==> shows(r[i], list[i]),
        0 <= i < r.len() ==> crate::oid::oid_parsed(r[i].id@) == list[i].id,
{
    crate::oid::hex_round_trip(list[i].id.unwrap());
    if 0 <= i < r.len() {
        assert(shows(r[i], list[i]));
    }
}

} // verus!
