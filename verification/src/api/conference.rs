//! Conferences: what they look like, who is in them, what is said in them.
use vstd::prelude::*;
use crate::api::error::{ApiError, DaoError, ErrorKind, bad_request, dao_answer, forbidden};
use crate::api::scope::{
    Admitted,
    Asked,
    all_but,
    but,
    holds,
    item_asked,
    item_request,
    opt_id_in,
    parse_opt_id,
};
use crate::api::wire::{
    Body,
    Broadcast,
    FieldView,
    Paginated,
    done,
    hex_of,
    opt_hex,
    said,
    same_place,
    unless_nobody,
};
use crate::models::conference::{Conference, ConferenceStatus, ConferenceType};
use crate::models::conference_participant::ConferenceParticipant;
use crate::oid::{DateTime, ObjectId, oid_hex, time_text};
use crate::text::opt_view;

verus! {

/// A conference to make.
#[derive(Debug)]
#[allow(missing_docs)]
pub struct CreateConferenceRequest {
    pub subject: String,
    pub conference_type: ConferenceType,
    pub channel_id: Option<String>,
}

/// A conference, for clients.
#[derive(Debug)]
#[allow(missing_docs)]
pub struct ConferenceResponse {
    pub id: String,
    pub subject: String,
    pub status: String,
    pub conference_type: String,
    pub meeting_code: String,
    pub join_url: String,
    pub organizer_id: String,
    pub participant_count: u32,
}

/// A request on a conference of a tenant.
pub fn conference_request(tenant_id: &str, conference_id: &str, user: ObjectId) -> (r: Result<Asked<ObjectId>, ApiError>)
    ensures
        match r {
            Ok(a) => item_asked(tenant_id@, conference_id@, "conference_id"@, user) == Ok::<
                _,
                (ErrorKind, Seq<char>),
            >(a),
            Err(e) => item_asked(tenant_id@, conference_id@, "conference_id"@, user) == Err::<
                Asked<ObjectId>,
                _,
            >(e@),
        },
{
    item_request(tenant_id, conference_id, "conference_id", user)
}

/// A conference as a client sees it.
pub open spec fn shows(r: ConferenceResponse, m: Conference) -> bool {
    &&& m.id matches Some(id) && r.id@ == oid_hex(id)
    &&& r.subject@ == m.subject@
    &&& r.status@ == m.status.spec_label()@
    &&& r.conference_type@ == m.conference_type.spec_label()@
    &&& r.meeting_code@ == m.meeting_code@
    &&& r.join_url@ == m.join_url@
    &&& r.organizer_id@ == oid_hex(m.organizer_id)
    &&& r.participant_count == m.participant_count
}

/// A conference as a client sees it.
pub fn to_response(m: &Conference) -> (r: ConferenceResponse)
    requires
        m.id is Some,
    ensures
        shows(r, *m),
{
    ConferenceResponse {
        id: m.id.unwrap().to_hex(),
        subject: m.subject.clone(),
        status: m.status.label().to_owned(),
        conference_type: m.conference_type.label().to_owned(),
        meeting_code: m.meeting_code.clone(),
        join_url: m.join_url.clone(),
        organizer_id: m.organizer_id.to_hex(),
        participant_count: m.participant_count,
    }
}

/// Every one of them has its id.
pub open spec fn identified(list: Seq<Conference>) -> bool {
    forall|i: int| 0 <= i < list.len() ==> (#[trigger] list[i]).id is Some
}

/// Conferences as a client sees them, one for one.
pub open spec fn shows_all(r: Seq<ConferenceResponse>, list: Seq<Conference>) -> bool {
    &&& r.len() == list.len()
    &&& forall|i: int| 0 <= i < r.len() ==> shows(#[trigger] r[i], list[i])
}

/// Conferences as a client sees them, one for one.
pub fn responses(items: &Vec<Conference>) -> (r: Vec<ConferenceResponse>)
    requires
        identified(items@),
    ensures
        shows_all(r@, items@),
{
    let mut out: Vec<ConferenceResponse> = Vec::new();
    let mut i: usize = 0;
    while i < items.len()
        invariant
            i <= items@.len(),
            identified(items@),
            shows_all(out@, items@.take(i as int)),
        decreases items@.len() - i,
    {
        let shown: ConferenceResponse = to_response(&items[i]);
        out.push(shown);
        i = i + 1;
    }
    out
}

/// One page of the conferences of a tenant.
pub fn list(page: Paginated<Conference>) -> (r: Paginated<ConferenceResponse>)
    requires
        identified(page.items@),
    ensures
        same_place(r, page),
        shows_all(r.items@, page.items@),
{
    Paginated {
        items: responses(&page.items),
        total: page.total,
        page: page.page,
        per_page: page.per_page,
        total_pages: page.total_pages,
    }
}

/// A conference to store.
#[derive(Debug)]
#[allow(missing_docs)]
pub struct NewConference {
    pub tenant_id: ObjectId,
    pub organizer_id: ObjectId,
    pub subject: String,
    pub conference_type: ConferenceType,
    pub channel_id: Option<ObjectId>,
}

/// The conference to store for a request.
pub fn create(asked: &Admitted<()>, body: CreateConferenceRequest) -> (r: Result<
    NewConference,
    ApiError,
>)
    ensures
        match r {
            Ok(n) => {
                &&& opt_id_in(opt_view(body.channel_id), "channel_id"@) == Ok::<
                    _,
                    (ErrorKind, Seq<char>),
                >(n.channel_id)
                &&& n.tenant_id == asked.request().tenant
                &&& n.organizer_id == asked.request().user
                &&& n.subject == body.subject
                &&& n.conference_type == body.conference_type
            },
            Err(e) => opt_id_in(opt_view(body.channel_id), "channel_id"@) == Err::<
                Option<ObjectId>,
                _,
            >(e@),
        },
{
    let channel_id: Option<ObjectId> = parse_opt_id(&body.channel_id, "channel_id")?;
    Ok(
        NewConference {
            tenant_id: asked.tenant(),
            organizer_id: asked.user(),
            subject: body.subject,
            conference_type: body.conference_type,
            channel_id,
        },
    )
}

/// The answer to one who joins a conference.
pub fn join(participant: ObjectId) -> (r: Body)
    ensures
        r@ == seq![
            ("participant_id"@, FieldView::Text(oid_hex(participant))),
            ("joined"@, FieldView::Flag(true)),
        ],
{
    Body::new().id("participant_id", participant).flag("joined", true)
}

/// Tells those who remain in a conference that its media room is closed.
pub fn room_closed(asked: &Admitted<ObjectId>, remaining: Vec<ObjectId>) -> (r: Option<
    Broadcast<Body>,
>)
    ensures
        remaining@.len() == 0 <==> r is None,
        r matches Some(b) ==> {
            &&& b.to == remaining
            &&& b.kind@ == "media:room_closed"@
            &&& b.data@ == seq![
                ("conference_id"@, FieldView::Text(oid_hex(asked.request().part))),
            ]
        },
{
    let data: Body = Body::new().id("conference_id", *asked.part());
    unless_nobody(remaining, "media:room_closed", data)
}

/// Tells those who remain in a conference that one has left.
pub fn peer_left(asked: &Admitted<ObjectId>, remaining: Vec<ObjectId>) -> (r: Option<
    Broadcast<Body>,
>)
    ensures
        remaining@.len() == 0 <==> r is None,
        r matches Some(b) ==> {
            &&& b.to == remaining
            &&& b.kind@ == "media:peer_left"@
            &&& b.data@ == seq![
                ("conference_id"@, FieldView::Text(oid_hex(asked.request().part))),
                ("user_id"@, FieldView::Text(oid_hex(asked.request().user))),
            ]
        },
{
    let data: Body = Body::new().id("conference_id", *asked.part()).id("user_id", asked.user());
    unless_nobody(remaining, "media:peer_left", data)
}

/// The answer to one who ends a conference.
pub fn end(outcome: Result<(), DaoError>) -> (r: Result<Body, ApiError>)
    ensures
        match outcome {
            Ok(()) => r matches Ok(b) && b@ == said("ended"@, true),
            Err(e) => r matches Err(a) && a@ == dao_answer(e),
        },
{
    done("ended", outcome)
}

/// The answer to one who leaves a conference.
pub fn leave(outcome: Result<(), DaoError>) -> (r: Result<Body, ApiError>)
    ensures
        match outcome {
            Ok(()) => r matches Ok(b) && b@ == said("left"@, true),
            Err(e) => r matches Err(a) && a@ == dao_answer(e),
        },
{
    done("left", outcome)
}

/// Someone in a conference, for clients.
#[derive(Debug)]
#[allow(missing_docs)]
pub struct ConferenceParticipantItem {
    pub id: String,
    pub user_id: Option<String>,
    pub display_name: String,
    pub role: String,
    pub is_muted: bool,
    pub is_video_on: bool,
    pub is_screen_sharing: bool,
    pub is_hand_raised: bool,
}

/// Someone in a conference as a client sees them.
pub open spec fn shows_participant(r: ConferenceParticipantItem, m: ConferenceParticipant) -> bool {
    &&& m.id matches Some(id) && r.id@ == oid_hex(id)
    &&& opt_view(r.user_id) == opt_hex(m.user_id)
    &&& r.display_name@ == m.display_name@
    &&& r.role@ == m.role.spec_label()@
    &&& r.is_muted == m.is_muted
    &&& r.is_video_on == m.is_video_on
    &&& r.is_screen_sharing == m.is_screen_sharing
    &&& r.is_hand_raised == m.is_hand_raised
}

/// Someone in a conference as a client sees them.
pub fn participant_item(m: &ConferenceParticipant) -> (r: ConferenceParticipantItem)
    requires
        m.id is Some,
    ensures
        shows_participant(r, *m),
{
    ConferenceParticipantItem {
        id: m.id.unwrap().to_hex(),
        user_id: hex_of(m.user_id),
        display_name: m.display_name.clone(),
        role: m.role.label().to_owned(),
        is_muted: m.is_muted,
        is_video_on: m.is_video_on,
        is_screen_sharing: m.is_screen_sharing,
        is_hand_raised: m.is_hand_raised,
    }
}

/// Every one of them has its id.
pub open spec fn participants_identified(list: Seq<ConferenceParticipant>) -> bool {
    forall|i: int| 0 <= i < list.len() ==> (#[trigger] list[i]).id is Some
}

/// The people in a conference, one for one.
pub open spec fn shows_participant_all(r: Seq<ConferenceParticipantItem>, list: Seq<ConferenceParticipant>) -> bool {
    &&& r.len() == list.len()
    &&& forall|i: int| 0 <= i < r.len() ==> shows_participant(#[trigger] r[i], list[i])
}

/// The people in a conference, one for one.
pub fn participants(items: &Vec<ConferenceParticipant>) -> (r: Vec<ConferenceParticipantItem>)
    requires
        participants_identified(items@),
    ensures
        shows_participant_all(r@, items@),
{
    let mut out: Vec<ConferenceParticipantItem> = Vec::new();
    let mut i: usize = 0;
    while i < items.len()
        invariant
            i <= items@.len(),
            participants_identified(items@),
            shows_participant_all(out@, items@.take(i as int)),
        decreases items@.len() - i,
    {
        let shown: ConferenceParticipantItem = participant_item(&items[i]);
        out.push(shown);
        i = i + 1;
    }
    out
}

/// A message in a conference to post.
#[derive(Debug)]
#[allow(missing_docs)]
pub struct CreateConferenceChatMessageRequest {
    pub content: String,
}

/// A message in a conference, as it is stored.
#[derive(Debug)]
#[allow(missing_docs)]
pub struct ConferenceChatMessage {
    pub id: Option<ObjectId>,
    pub conference_id: ObjectId,
    pub author_id: ObjectId,
    pub display_name: String,
    pub content: String,
    pub created_at: DateTime,
}

/// A message in a conference, for clients.
#[derive(Debug)]
#[allow(missing_docs)]
pub struct ConferenceChatMessageResponse {
    pub id: String,
    pub conference_id: String,
    pub author_id: String,
    pub display_name: String,
    pub content: String,
    pub created_at: String,
}

/// A message in a conference as a client sees it.
pub open spec fn shows_chat(r: ConferenceChatMessageResponse, m: ConferenceChatMessage) -> bool {
    &&& m.id matches Some(id) && r.id@ == oid_hex(id)
    &&& r.conference_id@ == oid_hex(m.conference_id)
    &&& r.author_id@ == oid_hex(m.author_id)
    &&& r.display_name@ == m.display_name@
    &&& r.content@ == m.content@
    &&& r.created_at@ == time_text(m.created_at)
}

/// A message in a conference as a client sees it.
pub fn chat_response(m: &ConferenceChatMessage) -> (r: ConferenceChatMessageResponse)
    requires
        m.id is Some,
    ensures
        shows_chat(r, *m),
{
    ConferenceChatMessageResponse {
        id: m.id.unwrap().to_hex(),
        conference_id: m.conference_id.to_hex(),
        author_id: m.author_id.to_hex(),
        display_name: m.display_name.clone(),
        content: m.content.clone(),
        created_at: m.created_at.to_text(),
    }
}

/// Every one of them has its id.
pub open spec fn chat_identified(list: Seq<ConferenceChatMessage>) -> bool {
    forall|i: int| 0 <= i < list.len() ==> (#[trigger] list[i]).id is Some
}

/// The messages of a conference, one for one.
pub open spec fn shows_chat_all(r: Seq<ConferenceChatMessageResponse>, list: Seq<ConferenceChatMessage>) -> bool {
    &&& r.len() == list.len()
    &&& forall|i: int| 0 <= i < r.len() ==> shows_chat(#[trigger] r[i], list[i])
}

/// The messages of a conference, one for one.
pub fn chat_responses(items: &Vec<ConferenceChatMessage>) -> (r: Vec<ConferenceChatMessageResponse>)
    requires
        chat_identified(items@),
    ensures
        shows_chat_all(r@, items@),
{
    let mut out: Vec<ConferenceChatMessageResponse> = Vec::new();
    let mut i: usize = 0;
    while i < items.len()
        invariant
            i <= items@.len(),
            chat_identified(items@),
            shows_chat_all(out@, items@.take(i as int)),
        decreases items@.len() - i,
    {
        let shown: ConferenceChatMessageResponse = chat_response(&items[i]);
        out.push(shown);
        i = i + 1;
    }
    out
}

/// One page of the messages of a conference.
pub fn chat_page(page: Paginated<ConferenceChatMessage>) -> (r: Paginated<ConferenceChatMessageResponse>)
    requires
        chat_identified(page.items@),
    ensures
        same_place(r, page),
        shows_chat_all(r.items@, page.items@),
{
    Paginated {
        items: chat_responses(&page.items),
        total: page.total,
        page: page.page,
        per_page: page.per_page,
        total_pages: page.total_pages,
    }
}

/// Whether the one who asks is in the conference: only then may they read or
/// write its messages.
pub fn chat_list(asked: &Admitted<ObjectId>, participants: &Vec<ObjectId>) -> (r: Result<
    (),
    ApiError,
>)
    ensures
        r is Ok <==> participants@.contains(asked.request().user),
        r matches Err(e) ==> e@ == (ErrorKind::Forbidden, "Not a conference participant"@),
{
    if holds(participants, asked.user()) {
        Ok(())
    } else {
        Err(forbidden("Not a conference participant"))
    }
}

/// Whether messages can be written now: only while the conference is under
/// way.
pub fn chat_open(conference: &Conference) -> (r: Result<(), ApiError>)
    ensures
        r is Ok <==> conference.status == ConferenceStatus::InProgress,
        r matches Err(e) ==> e@ == (
            ErrorKind::BadRequest,
            "Chat is only available during an active conference"@,
        ),
{
    match conference.status {
        ConferenceStatus::InProgress => Ok(()),
        _ => Err(bad_request("Chat is only available during an active conference")),
    }
}

/// Who hears of a new message in a conference: everyone in it but the author,
/// who gets the event's data as the answer.
pub fn chat_create(
    asked: &Admitted<ObjectId>,
    message: &ConferenceChatMessage,
    participants: &Vec<ObjectId>,
) -> (r: Broadcast<ConferenceChatMessageResponse>)
    requires
        message.id is Some,
    ensures
        r.to@ == but(participants@, asked.request().user),
        r.kind@ == "conference:message:create"@,
        shows_chat(r.data, *message),
{
    Broadcast {
        to: all_but(participants, asked.user()),
        kind: "conference:message:create",
        data: chat_response(message),
    }
}

/// What a client sees of a conference is its own: the ids read back, and
/// every other part is the part of that name.
pub proof fn conferences_show_their_own(r: ConferenceResponse, m: Conference)
    requires
        shows(r, m),
    ensures
        crate::oid::oid_parsed(r.id@) == m.id,
        r.subject@ == m.subject@,
        r.status@ == m.status.spec_label()@,
        r.conference_type@ == m.conference_type.spec_label()@,
        r.meeting_code@ == m.meeting_code@,
        r.join_url@ == m.join_url@,
        crate::oid::oid_parsed(r.organizer_id@) == Some(m.organizer_id),
        r.participant_count == m.participant_count,
{
    crate::oid::hex_round_trip(m.id.unwrap());
    crate::oid::hex_round_trip(m.organizer_id);
}

/// What a client sees of a participant is that participant's own.
pub proof fn participants_show_their_own(r: ConferenceParticipantItem, m: ConferenceParticipant)
    requires
        shows_participant(r, m),
    ensures
        crate::oid::oid_parsed(r.id@) == m.id,
        r.user_id is Some <==> m.user_id is Some,
        r.user_id matches Some(s) ==> crate::oid::oid_parsed(s@) == m.user_id,
        r.display_name@ == m.display_name@,
        r.role@ == m.role.spec_label()@,
        r.is_muted == m.is_muted,
        r.is_video_on == m.is_video_on,
        r.is_screen_sharing == m.is_screen_sharing,
        r.is_hand_raised == m.is_hand_raised,
{
    crate::oid::hex_round_trip(m.id.unwrap());
    crate::oid::hex_round_trip(m.user_id.unwrap());
}

/// What a client sees of a chat message is its own.
pub proof fn chat_shows_its_own(r: ConferenceChatMessageResponse, m: ConferenceChatMessage)
    requires
        shows_chat(r, m),
    ensures
        crate::oid::oid_parsed(r.id@) == m.id,
        crate::oid::oid_parsed(r.conference_id@) == Some(m.conference_id),
        crate::oid::oid_parsed(r.author_id@) == Some(m.author_id),
        r.display_name@ == m.display_name@,
        r.content@ == m.content@,
        r.created_at@ == time_text(m.created_at),
{
    crate::oid::hex_round_trip(m.id.unwrap());
    crate::oid::hex_round_trip(m.conference_id);
    crate::oid::hex_round_trip(m.author_id);
}

/// Of a list everything is shown, one for one and in its order.
pub proof fn conferences_are_shown_in_order(
    r: Seq<ConferenceResponse>,
    list: Seq<Conference>,
    i: int,
)
    requires
        shows_all(r, list),
    ensures
        r.len() == list.len(),
        0 <= i < r.len() ==> shows(r[i], list[i]),
        0 <= i < r.len() ==> crate::oid::oid_parsed(r[i].id@) == list[i].id,
{
    crate::oid::hex_round_trip(list[i].id.unwrap());
    if 0 <= i < r.len() {
        assert(shows(r[i], list[i]));
    }
}

/// Of a list everything is shown, one for one and in its order.
pub proof fn participants_are_shown_in_order(
    r: Seq<ConferenceParticipantItem>,
    list: Seq<ConferenceParticipant>,
    i: int,
)
    requires
        shows_participant_all(r, list),
    ensures
        r.len() == list.len(),
        0 <= i < r.len() ==> shows_participant(r[i], list[i]),
        0 <= i < r.len() ==> crate::oid::oid_parsed(r[i].id@) == list[i].id,
{
    crate::oid::hex_round_trip(list[i].id.unwrap());
    if 0 <= i < r.len() {
        assert(shows_participant(r[i], list[i]));
    }
}

/// Of a list everything is shown, one for one and in its order.
pub proof fn chat_messages_are_shown_in_order(
    r: Seq<ConferenceChatMessageResponse>,
    list: Seq<ConferenceChatMessage>,
    i: int,
)
    requires
        shows_chat_all(r, list),
    ensures
        r.len() == list.len(),
        0 <= i < r.len() ==> shows_chat(r[i], list[i]),
        0 <= i < r.len() ==> crate::oid::oid_parsed(r[i].id@) == list[i].id,
{
    crate::oid::hex_round_trip(list[i].id.unwrap());
    if 0 <= i < r.len() {
        assert(shows_chat(r[i], list[i]));
    }
}

} // verus!
