//! Transcriptions of conferences.
use vstd::prelude::*;
use crate::api::error::{ApiError, ErrorKind};
use crate::api::scope::{Admitted, Asked, item_asked, item_request, opt_id_in, parse_opt_id};
use crate::api::wire::{Paginated, same_place};
use crate::models::transcription::{ActionItem, Transcription};
use crate::oid::{ObjectId, oid_hex, time_text};
use crate::text::opt_view;

verus! {

/// A transcription to make.
#[derive(Debug)]
#[allow(missing_docs)]
pub struct CreateTranscriptionRequest {
    pub language: Option<String>,
    pub recording_id: Option<String>,
}

/// A transcription, for clients.
#[derive(Debug)]
#[allow(missing_docs)]
pub struct TranscriptionResponse {
    pub id: String,
    pub conference_id: String,
    pub status: String,
    pub language: String,
    pub format: String,
    pub summary: Option<String>,
    pub segment_count: usize,
    pub created_at: String,
}

/// A request on a transcription of a tenant; the conference goes unread.
pub fn transcription_request(tenant_id: &str, transcription_id: &str, user: ObjectId) -> (r: Result<Asked<ObjectId>, ApiError>)
    ensures
        match r {
            Ok(a) => item_asked(tenant_id@, transcription_id@, "transcription_id"@, user) == Ok::<
                _,
                (ErrorKind, Seq<char>),
            >(a),
            Err(e) => item_asked(tenant_id@, transcription_id@, "transcription_id"@, user) == Err::<
                Asked<ObjectId>,
                _,
            >(e@),
        },
{
    item_request(tenant_id, transcription_id, "transcription_id", user)
}

/// A transcription, with the number of its segments.
#[derive(Debug)]
pub struct Counted {
    /// The transcription.
    pub transcription: Transcription,
    /// How many segments it has.
    pub segments: usize,
}

/// A transcription as a client sees it.
pub open spec fn shows(r: TranscriptionResponse, m: Counted) -> bool {
    let t = m.transcription;
    &&& t.id matches Some(id) && r.id@ == oid_hex(id)
    &&& r.conference_id@ == oid_hex(t.conference_id)
    &&& r.status@ == t.status.spec_label()@
    &&& r.language@ == t.language@
    &&& r.format@ == t.format.spec_label()@
    &&& opt_view(r.summary) == opt_view(t.summary)
    &&& r.segment_count == m.segments
    &&& r.created_at@ == time_text(t.created_at)
}

/// A transcription as a client sees it.
pub fn to_response(m: &Counted) -> (r: TranscriptionResponse)
    requires
        m.transcription.id is Some,
    ensures
        shows(r, *m),
{
    let t: &Transcription = &m.transcription;
    TranscriptionResponse {
        id: t.id.unwrap().to_hex(),
        conference_id: t.conference_id.to_hex(),
        status: t.status.label().to_owned(),
        language: t.language.clone(),
        format: t.format.label().to_owned(),
        summary: crate::text::copy_opt(&t.summary),
        segment_count: m.segments,
        created_at: t.created_at.to_text(),
    }
}

/// Every one of them has its id.
pub open spec fn identified(list: Seq<Counted>) -> bool {
    forall|i: int| 0 <= i < list.len() ==> (#[trigger] list[i]).transcription.id is Some
}

/// Transcriptions as a client sees them, one for one.
pub open spec fn shows_all(r: Seq<TranscriptionResponse>, list: Seq<Counted>) -> bool {
    &&& r.len() == list.len()
    &&& forall|i: int| 0 <= i < r.len() ==> shows(#[trigger] r[i], list[i])
}

/// Transcriptions as a client sees them, one for one.
pub fn responses(items: &Vec<Counted>) -> (r: Vec<TranscriptionResponse>)
    requires
        identified(items@),
    ensures
        shows_all(r@, items@),
{
    let mut out: Vec<TranscriptionResponse> = Vec::new();
    let mut i: usize = 0;
    while i < items.len()
        invariant
            i <= items@.len(),
            identified(items@),
            shows_all(out@, items@.take(i as int)),
        decreases items@.len() - i,
    {
        let shown: TranscriptionResponse = to_response(&items[i]);
        out.push(shown);
        i = i + 1;
    }
    out
}

/// One page of the transcriptions of a conference.
pub fn list(page: Paginated<Counted>) -> (r: Paginated<TranscriptionResponse>)
    requires
        identified(page.items@),
    ensures
        same_place(r, page),
        shows_all(r.items@, page.items@),
{
    Paginated {
        items: responses(&page.items),
        total: page.total,
        page: page.page,
        per_page: page.per_page,
        total_pages: page.total_pages,
    }
}

/// A transcription to store.
#[derive(Debug)]
#[allow(missing_docs)]
pub struct NewTranscription {
    pub tenant_id: ObjectId,
    pub conference_id: ObjectId,
    pub recording_id: Option<ObjectId>,
    pub language: String,
}

/// The transcription to store for a request, in American English unless it
/// says otherwise.
pub fn create(asked: &Admitted<ObjectId>, body: CreateTranscriptionRequest) -> (r: Result<
    NewTranscription,
    ApiError,
>)
    ensures
        match r {
            Ok(n) => {
                &&& opt_id_in(opt_view(body.recording_id), "recording_id"@) == Ok::<
                    _,
                    (ErrorKind, Seq<char>),
                >(n.recording_id)
                &&& n.tenant_id == asked.request().tenant
                &&& n.conference_id == asked.request().part
                &&& n.language@ == (match body.language {
                    Some(l) => l@,
                    None => "en-US"@,
                })
            },
            Err(e) => opt_id_in(opt_view(body.recording_id), "recording_id"@) == Err::<
                Option<ObjectId>,
                _,
            >(e@),
        },
{
    let recording_id: Option<ObjectId> = parse_opt_id(&body.recording_id, "recording_id")?;
    let language: String = match body.language {
        Some(l) => l,
        None => "en-US".to_owned(),
    };
    Ok(
        NewTranscription {
            tenant_id: asked.tenant(),
            conference_id: *asked.part(),
            recording_id,
            language,
        },
    )
}

/// A transcription with all but its segments, for clients.
#[derive(Debug)]
#[allow(missing_docs)]
pub struct TranscriptionDetail {
    pub id: String,
    pub conference_id: String,
    pub status: String,
    pub language: String,
    pub format: String,
    pub summary: Option<String>,
    pub action_items: Vec<ActionItem>,
    pub created_at: String,
}

/// A transcription with all but its segments, which go to the client as they
/// are stored.
pub fn get(t: Transcription) -> (r: TranscriptionDetail)
    requires
        t.id is Some,
    ensures
        t.id matches Some(id) && r.id@ == oid_hex(id),
        r.conference_id@ == oid_hex(t.conference_id),
        r.status@ == t.status.spec_label()@,
        r.language == t.language,
        r.format@ == t.format.spec_label()@,
        r.summary == t.summary,
        r.action_items == t.action_items,
        r.created_at@ == time_text(t.created_at),
{
    TranscriptionDetail {
        id: t.id.unwrap().to_hex(),
        conference_id: t.conference_id.to_hex(),
        status: t.status.label().to_owned(),
        language: t.language,
        format: t.format.label().to_owned(),
        summary: t.summary,
        action_items: t.action_items,
        created_at: t.created_at.to_text(),
    }
}

/// What a client sees of a transcription is its own.
pub proof fn transcriptions_show_their_own(r: TranscriptionResponse, m: Counted)
    requires
        shows(r, m),
    ensures
        crate::oid::oid_parsed(r.id@) == m.transcription.id,
        crate::oid::oid_parsed(r.conference_id@) == Some(m.transcription.conference_id),
        r.status@ == m.transcription.status.spec_label()@,
        r.language@ == m.transcription.language@,
        r.format@ == m.transcription.format.spec_label()@,
        r.summary is Some <==> m.transcription.summary is Some,
        r.summary matches Some(s) ==> s@ == m.transcription.summary.unwrap()@,
        r.segment_count == m.segments,
        r.created_at@ == time_text(m.transcription.created_at),
{
    crate::oid::hex_round_trip(m.transcription.id.unwrap());
    crate::oid::hex_round_trip(m.transcription.conference_id);
}

/// Of a list everything is shown, one for one and in its order.
pub proof fn transcriptions_are_shown_in_order(
    r: Seq<TranscriptionResponse>,
    list: Seq<Counted>,
    i: int,
)
    requires
        shows_all(r, list),
    ensures
        r.len() == list.len(),
        0 <= i < r.len() ==> shows(r[i], list[i]),
        0 <= i < r.len() ==> crate::oid::oid_parsed(r[i].id@) == list[i].transcription.id,
{
    crate::oid::hex_round_trip(list[i].transcription.id.unwrap());
    if 0 <= i < r.len() {
        assert(shows(r[i], list[i]));
    }
}

} // verus!
