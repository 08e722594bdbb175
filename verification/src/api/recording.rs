//! Recordings of conferences.
use vstd::prelude::*;
use crate::api::error::{ApiError, DaoError, ErrorKind, dao_answer};
use crate::api::scope::{Admitted, Asked, item_asked, item_request};
use crate::api::wire::{Body, Paginated, done, said, same_place};
use crate::chance::{is_uuid, uuid_v4};
use crate::models::recording::{Recording, RecordingType, StorageFile, StorageProvider};
use crate::oid::{ObjectId, oid_hex, time_text};
use crate::text::opt_view;

verus! {

/// A recording to make.
#[derive(Debug)]
#[allow(missing_docs)]
pub struct CreateRecordingRequest {
    pub recording_type: Option<String>,
}

/// A recording, for clients.
#[derive(Debug)]
#[allow(missing_docs)]
pub struct RecordingResponse {
    pub id: String,
    pub conference_id: String,
    pub recording_type: String,
    pub status: String,
    pub content_type: String,
    pub size: u64,
    pub duration: u32,
    pub created_at: String,
}

/// A request on a recording of a tenant; the conference goes unread.
pub fn recording_request(tenant_id: &str, recording_id: &str, user: ObjectId) -> (r: Result<Asked<ObjectId>, ApiError>)
    ensures
        match r {
            Ok(a) => item_asked(tenant_id@, recording_id@, "recording_id"@, user) == Ok::<
                _,
                (ErrorKind, Seq<char>),
            >(a),
            Err(e) => item_asked(tenant_id@, recording_id@, "recording_id"@, user) == Err::<
                Asked<ObjectId>,
                _,
            >(e@),
        },
{
    item_request(tenant_id, recording_id, "recording_id", user)
}

/// A recording as a client sees it.
pub open spec fn shows(r: RecordingResponse, m: Recording) -> bool {
    &&& m.id matches Some(id) && r.id@ == oid_hex(id)
    &&& r.conference_id@ == oid_hex(m.conference_id)
    &&& r.recording_type@ == m.recording_type.spec_label()@
    &&& r.status@ == m.status.spec_label()@
    &&& r.content_type@ == m.file.content_type@
    &&& r.size == m.file.size
    &&& r.duration == m.file.duration
    &&& r.created_at@ == time_text(m.created_at)
}

/// A recording as a client sees it.
pub fn to_response(m: &Recording) -> (r: RecordingResponse)
    requires
        m.id is Some,
    ensures
        shows(r, *m),
{
    RecordingResponse {
        id: m.id.unwrap().to_hex(),
        conference_id: m.conference_id.to_hex(),
        recording_type: m.recording_type.label().to_owned(),
        status: m.status.label().to_owned(),
        content_type: m.file.content_type.clone(),
        size: m.file.size,
        duration: m.file.duration,
        created_at: m.created_at.to_text(),
    }
}

/// Every one of them has its id.
pub open spec fn identified(list: Seq<Recording>) -> bool {
    forall|i: int| 0 <= i < list.len() ==> (#[trigger] list[i]).id is Some
}

/// Recordings as a client sees them, one for one.
pub open spec fn shows_all(r: Seq<RecordingResponse>, list: Seq<Recording>) -> bool {
    &&& r.len() == list.len()
    &&& forall|i: int| 0 <= i < r.len() ==> shows(#[trigger] r[i], list[i])
}

/// Recordings as a client sees them, one for one.
pub fn responses(items: &Vec<Recording>) -> (r: Vec<RecordingResponse>)
    requires
        identified(items@),
    ensures
        shows_all(r@, items@),
{
    let mut out: Vec<RecordingResponse> = Vec::new();
    let mut i: usize = 0;
    while i < items.len()
        invariant
            i <= items@.len(),
            identified(items@),
            shows_all(out@, items@.take(i as int)),
        decreases items@.len() - i,
    {
        let shown: RecordingResponse = to_response(&items[i]);
        out.push(shown);
        i = i + 1;
    }
    out
}

/// One page of the recordings of a conference.
pub fn list(page: Paginated<Recording>) -> (r: Paginated<RecordingResponse>)
    requires
        identified(page.items@),
    ensures
        same_place(r, page),
        shows_all(r.items@, page.items@),
{
    Paginated {
        items: responses(&page.items),
        total: page.total,
        page: page.page,
        per_page: page.per_page,
        total_pages: page.total_pages,
    }
}

/// What a recording is of: what the request says, else video.
pub open spec fn type_asked(s: Option<Seq<char>>) -> RecordingType {
    match s {
        Some(t) => if t == "audio"@ {
            RecordingType::Audio
        } else if t == "screen_share"@ {
            RecordingType::ScreenShare
        } else {
            RecordingType::Video
        },
        None => RecordingType::Video,
    }
}

/// Where the recording that goes by `unique` is stored.
pub open spec fn recording_key(tenant: ObjectId, conference: ObjectId, unique: Seq<char>) -> Seq<
    char,
> {
    oid_hex(tenant) + "/"@ + oid_hex(conference) + "/"@ + unique
}

/// A recording to store; it begins and ends now.
#[derive(Debug)]
#[allow(missing_docs)]
pub struct NewRecording {
    pub tenant_id: ObjectId,
    pub conference_id: ObjectId,
    pub recording_type: RecordingType,
    pub file: StorageFile,
}

/// The recording to store for a request, in a file that goes by `unique`.
pub fn create_as(asked: &Admitted<ObjectId>, body: &CreateRecordingRequest, unique: &str) -> (r:
    NewRecording)
    ensures
        r.tenant_id == asked.request().tenant,
        r.conference_id == asked.request().part,
        r.recording_type == type_asked(opt_view(body.recording_type)),
        r.file.storage_provider == StorageProvider::Local,
        r.file.bucket@ == "recordings"@,
        r.file.key@ == recording_key(asked.request().tenant, asked.request().part, unique@),
        r.file.url@.len() == 0,
        r.file.content_type@ == "video/webm"@,
        r.file.size == 0,
        r.file.duration == 0,
        r.file.resolution is None,
{
    let recording_type: RecordingType = match &body.recording_type {
        Some(t) => if crate::text::same(t.as_str(), "audio") {
            RecordingType::Audio
        } else if crate::text::same(t.as_str(), "screen_share") {
            RecordingType::ScreenShare
        } else {
            RecordingType::Video
        },
        None => RecordingType::Video,
    };
    let tenant: String = asked.tenant().to_hex();
    let conference: String = asked.part().to_hex();
    let dir: String = crate::text::cat3(tenant.as_str(), "/", conference.as_str());
    let key: String = crate::text::cat3(dir.as_str(), "/", unique);
    NewRecording {
        tenant_id: asked.tenant(),
        conference_id: *asked.part(),
        recording_type,
        file: StorageFile {
            storage_provider: StorageProvider::Local,
            bucket: "recordings".to_owned(),
            key,
            url: String::new(),
            content_type: "video/webm".to_owned(),
            size: 0,
            duration: 0,
            resolution: None,
        },
    }
}

/// The recording to store for a request, in a file that nothing else goes by
/// but by the worst of chances.
pub fn create(asked: &Admitted<ObjectId>, body: &CreateRecordingRequest) -> (r: NewRecording)
    ensures
        r.tenant_id == asked.request().tenant,
        r.conference_id == asked.request().part,
        r.recording_type == type_asked(opt_view(body.recording_type)),
        r.file.storage_provider == StorageProvider::Local,
        r.file.bucket@ == "recordings"@,
        exists|u: Seq<char>| #[trigger]
            is_uuid(u) && r.file.key@ == recording_key(
                asked.request().tenant,
                asked.request().part,
                u,
            ),
        r.file.url@.len() == 0,
        r.file.content_type@ == "video/webm"@,
        r.file.size == 0,
        r.file.duration == 0,
        r.file.resolution is None,
{
    let unique: String = uuid_v4();
    create_as(asked, body, unique.as_str())
}

/// The answer to the deletion of a recording.
pub fn delete(outcome: Result<(), DaoError>) -> (r: Result<Body, ApiError>)
    ensures
        match outcome {
            Ok(()) => r matches Ok(b) && b@ == said("deleted"@, true),
            Err(e) => r matches Err(a) && a@ == dao_answer(e),
        },
{
    done("deleted", outcome)
}

/// What a client sees of a recording is its own.
pub proof fn recordings_show_their_own(r: RecordingResponse, m: Recording)
    requires
        shows(r, m),
    ensures
        crate::oid::oid_parsed(r.id@) == m.id,
        crate::oid::oid_parsed(r.conference_id@) == Some(m.conference_id),
        r.recording_type@ == m.recording_type.spec_label()@,
        r.status@ == m.status.spec_label()@,
        r.content_type@ == m.file.content_type@,
        r.size == m.file.size,
        r.duration == m.file.duration,
        r.created_at@ == time_text(m.created_at),
{
    crate::oid::hex_round_trip(m.id.unwrap());
    crate::oid::hex_round_trip(m.conference_id);
}

/// Of a list everything is shown, one for one and in its order.
pub proof fn recordings_are_shown_in_order(r: Seq<RecordingResponse>, list: Seq<Recording>, i: int)
    requires
        shows_all(r, list),
    ensures
        r.len() == list.len(),
        0 <= i < r.len() ==> shows(r[i], list[i]),
        0 <= i < r.len() ==> crate::oid::oid_parsed(r[i].id@) == list[i].id,
{
    crate::oid::hex_round_trip(list[i].id.unwrap());
    if 0 <= i < r.len() {
        assert(shows(r[i], list[i]));
    }
}

} // verus!
