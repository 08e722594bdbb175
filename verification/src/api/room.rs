//! Rooms: what they look like, who is in them, the calls in them.
use vstd::prelude::*;
use crate::api::error::{ApiError, DaoError, ErrorKind, dao_answer, internal};
use crate::api::scope::{Admitted, opt_id_in, parse_opt_id};
use crate::api::wire::{
    Body,
    Broadcast,
    FieldView,
    Paginated,
    display_name,
    done,
    entry,
    find_entry,
    hex_of,
    name_or_id,
    opt_hex,
    said,
    same_place,
    unless_nobody,
};
use crate::models::channel::MediaSettings;
use crate::models::conference_participant::ParticipantRole;
use crate::oid::{DateTime, ObjectId, oid_hex, time_text};
use crate::text::opt_view;

verus! {

/// A room to make.
#[derive(Debug)]
#[allow(missing_docs)]
pub struct CreateRoomRequest {
    pub name: String,
    pub parent_id: Option<String>,
    pub is_open: bool,
    pub media_settings: Option<MediaSettings>,
}

/// What to change of a room.
#[derive(Debug)]
#[allow(missing_docs)]
pub struct UpdateRoomRequest {
    pub name: Option<String>,
    pub topic: Option<String>,
    pub purpose: Option<String>,
    pub is_open: Option<bool>,
    pub is_archived: Option<bool>,
    pub is_read_only: Option<bool>,
}

/// What to look for among the rooms.
#[derive(Debug)]
#[allow(missing_docs)]
pub struct ExploreQuery {
    pub q: String,
}

/// A message in a call.
#[derive(Debug)]
#[allow(missing_docs)]
pub struct CreateCallMessageRequest {
    pub content: String,
}

/// A room, as it is stored.
#[derive(Debug)]
#[allow(missing_docs)]
pub struct Room {
    pub id: Option<ObjectId>,
    pub name: String,
    pub path: String,
    pub parent_id: Option<ObjectId>,
    pub is_open: bool,
    pub member_count: u32,
    pub message_count: u64,
    pub media_settings: Option<MediaSettings>,
    pub conference_status: Option<String>,
    pub meeting_code: Option<String>,
    pub participant_count: u32,
}

/// A room, for clients.
#[derive(Debug)]
#[allow(missing_docs)]
pub struct RoomResponse {
    pub id: String,
    pub name: String,
    pub path: String,
    pub parent_id: Option<String>,
    pub is_open: bool,
    pub member_count: u32,
    pub message_count: u64,
    pub has_media: bool,
    pub conference_status: Option<String>,
    pub meeting_code: Option<String>,
    pub participant_count: u32,
}

/// A room as a client sees it.
pub open spec fn shows(r: RoomResponse, m: Room) -> bool {
    &&& m.id matches Some(id) && r.id@ == oid_hex(id)
    &&& r.name@ == m.name@
    &&& r.path@ == m.path@
    &&& opt_view(r.parent_id) == opt_hex(m.parent_id)
    &&& r.is_open == m.is_open
    &&& r.member_count == m.member_count
    &&& r.message_count == m.message_count
    &&& r.has_media == m.media_settings is Some
    &&& opt_view(r.conference_status) == opt_view(m.conference_status)
    &&& opt_view(r.meeting_code) == opt_view(m.meeting_code)
    &&& r.participant_count == m.participant_count
}

/// A room as a client sees it.
pub fn to_response(m: &Room) -> (r: RoomResponse)
    requires
        m.id is Some,
    ensures
        shows(r, *m),
{
    RoomResponse {
        id: m.id.unwrap().to_hex(),
        name: m.name.clone(),
        path: m.path.clone(),
        parent_id: hex_of(m.parent_id),
        is_open: m.is_open,
        member_count: m.member_count,
        message_count: m.message_count,
        has_media: m.media_settings.is_some(),
        conference_status: crate::text::copy_opt(&m.conference_status),
        meeting_code: crate::text::copy_opt(&m.meeting_code),
        participant_count: m.participant_count,
    }
}

/// Every one of them has its id.
pub open spec fn identified(list: Seq<Room>) -> bool {
    forall|i: int| 0 <= i < list.len() ==> (#[trigger] list[i]).id is Some
}

/// The rooms of a tenant, or those that were looked for, one for one.
pub open spec fn shows_all(r: Seq<RoomResponse>, list: Seq<Room>) -> bool {
    &&& r.len() == list.len()
    &&& forall|i: int| 0 <= i < r.len() ==> shows(#[trigger] r[i], list[i])
}

/// The rooms of a tenant, or those that were looked for, one for one.
pub fn list(items: &Vec<Room>) -> (r: Vec<RoomResponse>)
    requires
        identified(items@),
    ensures
        shows_all(r@, items@),
{
    let mut out: Vec<RoomResponse> = Vec::new();
    let mut i: usize = 0;
    while i < items.len()
        invariant
            i <= items@.len(),
            identified(items@),
            shows_all(out@, items@.take(i as int)),
        decreases items@.len() - i,
    {
        let shown: RoomResponse = to_response(&items[i]);
        out.push(shown);
        i = i + 1;
    }
    out
}

/// A room to store.
#[derive(Debug)]
#[allow(missing_docs)]
pub struct NewRoom {
    pub tenant_id: ObjectId,
    pub name: String,
    pub parent_id: Option<ObjectId>,
    pub creator_id: ObjectId,
    pub is_open: bool,
    pub media_settings: Option<MediaSettings>,
}

/// The room to store for a request.
pub fn create(asked: &Admitted<()>, body: CreateRoomRequest) -> (r: Result<NewRoom, ApiError>)
    ensures
        match r {
            Ok(n) => {
                &&& opt_id_in(opt_view(body.parent_id), "parent_id"@) == Ok::<
                    _,
                    (ErrorKind, Seq<char>),
                >(n.parent_id)
                &&& n.tenant_id == asked.request().tenant
                &&& n.name == body.name
                &&& n.creator_id == asked.request().user
                &&& n.is_open == body.is_open
                &&& n.media_settings == body.media_settings
            },
            Err(e) => opt_id_in(opt_view(body.parent_id), "parent_id"@) == Err::<
                Option<ObjectId>,
                _,
            >(e@),
        },
{
    let parent_id: Option<ObjectId> = parse_opt_id(&body.parent_id, "parent_id")?;
    Ok(
        NewRoom {
            tenant_id: asked.tenant(),
            name: body.name,
            parent_id,
            creator_id: asked.user(),
            is_open: body.is_open,
            media_settings: body.media_settings,
        },
    )
}

/// The answer to one who joins a room.
pub fn join(outcome: Result<(), DaoError>) -> (r: Result<Body, ApiError>)
    ensures
        match outcome {
            Ok(()) => r matches Ok(b) && b@ == said("joined"@, true),
            Err(e) => r matches Err(a) && a@ == dao_answer(e),
        },
{
    done("joined", outcome)
}

/// The answer to one who leaves a room, or the call in it.
pub fn leave(outcome: Result<(), DaoError>) -> (r: Result<Body, ApiError>)
    ensures
        match outcome {
            Ok(()) => r matches Ok(b) && b@ == said("left"@, true),
            Err(e) => r matches Err(a) && a@ == dao_answer(e),
        },
{
    done("left", outcome)
}

/// The answer to a change of a room.
pub fn update(outcome: Result<(), DaoError>) -> (r: Result<Body, ApiError>)
    ensures
        match outcome {
            Ok(()) => r matches Ok(b) && b@ == said("updated"@, true),
            Err(e) => r matches Err(a) && a@ == dao_answer(e),
        },
{
    done("updated", outcome)
}

/// The answer to the deletion of a room.
pub fn delete(outcome: Result<(), DaoError>) -> (r: Result<Body, ApiError>)
    ensures
        match outcome {
            Ok(()) => r matches Ok(b) && b@ == said("deleted"@, true),
            Err(e) => r matches Err(a) && a@ == dao_answer(e),
        },
{
    done("deleted", outcome)
}

/// Someone in a room, as it is stored.
#[derive(Debug)]
#[allow(missing_docs)]
pub struct RoomMember {
    pub id: Option<ObjectId>,
    pub user_id: Option<ObjectId>,
    pub room_id: ObjectId,
    pub display_name: Option<String>,
    pub role: Option<ParticipantRole>,
    pub joined_at: DateTime,
    pub unread_count: u32,
    pub is_muted: bool,
    pub is_video_on: bool,
    pub is_screen_sharing: bool,
    pub is_hand_raised: bool,
}

/// What a member's account says.
#[derive(Debug)]
#[allow(missing_docs)]
pub struct Account {
    pub username: String,
    pub avatar: Option<String>,
    pub display_name: String,
}

/// Someone in a room, for clients.
#[derive(Debug)]
#[allow(missing_docs)]
pub struct MemberItem {
    pub id: String,
    pub user_id: Option<String>,
    pub room_id: String,
    pub display_name: String,
    pub username: Option<String>,
    pub avatar: Option<String>,
    pub joined_at: String,
    pub unread_count: u32,
    pub is_muted: bool,
}

/// The users among members.
pub open spec fn users_of(list: Seq<RoomMember>) -> Seq<ObjectId>
    decreases list.len(),
{
    if list.len() == 0 {
        seq![]
    } else {
        match list.last().user_id {
            Some(u) => users_of(list.drop_last()).push(u),
            None => users_of(list.drop_last()),
        }
    }
}

/// The users among members, whose accounts are to be looked up.
pub fn member_users(list: &Vec<RoomMember>) -> (r: Vec<ObjectId>)
    ensures
        r@ == users_of(list@),
{
    let mut out: Vec<ObjectId> = Vec::new();
    let mut i: usize = 0;
    while i < list.len()
        invariant
            i <= list@.len(),
            out@ == users_of(list@.take(i as int)),
        decreases list@.len() - i,
    {
        proof {
            assert(list@.take(i + 1).drop_last() =~= list@.take(i as int));
        }
        match list[i].user_id {
            Some(u) => {
                out.push(u);
            },
            None => {},
        }
        i = i + 1;
    }
    proof {
        assert(list@.take(list@.len() as int) =~= list@);
    }
    out
}

/// The account of a member, where one was found.
pub open spec fn account_of(m: RoomMember, accounts: Seq<(ObjectId, Account)>) -> Option<Account> {
    match m.user_id {
        Some(u) => entry(accounts, u),
        None => None,
    }
}

/// Someone in a room as a client sees them: by the name of their account, else
/// by the name that the room has for them, else without a name.
pub open spec fn shows_member(
    r: MemberItem,
    m: RoomMember,
    accounts: Seq<(ObjectId, Account)>,
) -> bool {
    &&& m.id matches Some(id) && r.id@ == oid_hex(id)
    &&& opt_view(r.user_id) == opt_hex(m.user_id)
    &&& r.room_id@ == oid_hex(m.room_id)
    &&& match account_of(m, accounts) {
        Some(a) => r.display_name@ == a.display_name@ && opt_view(r.username) == Some(a.username@)
            && opt_view(r.avatar) == opt_view(a.avatar),
        None => r.username is None && r.avatar is None && r.display_name@ == (
        match m.display_name {
            Some(n) => n@,
            None => seq![],
        }),
    }
    &&& r.joined_at@ == time_text(m.joined_at)
    &&& r.unread_count == m.unread_count
    &&& r.is_muted == m.is_muted
}

/// Someone in a room as a client sees them.
pub fn member_item(m: &RoomMember, accounts: &Vec<(ObjectId, Account)>) -> (r: MemberItem)
    requires
        m.id is Some,
    ensures
        shows_member(r, *m, accounts@),
{
    let account: Option<&Account> = match m.user_id {
        Some(u) => find_entry(accounts, u),
        None => None,
    };
    let (name, username, avatar): (String, Option<String>, Option<String>) = match account {
        Some(a) => (
            a.display_name.clone(),
            Some(a.username.clone()),
            crate::text::copy_opt(&a.avatar),
        ),
        None => (
            match &m.display_name {
                Some(n) => n.clone(),
                None => String::new(),
            },
            None,
            None,
        ),
    };
    MemberItem {
        id: m.id.unwrap().to_hex(),
        user_id: hex_of(m.user_id),
        room_id: m.room_id.to_hex(),
        display_name: name,
        username,
        avatar,
        joined_at: m.joined_at.to_text(),
        unread_count: m.unread_count,
        is_muted: m.is_muted,
    }
}

/// Every one of them has its id.
pub open spec fn members_identified(list: Seq<RoomMember>) -> bool {
    forall|i: int| 0 <= i < list.len() ==> (#[trigger] list[i]).id is Some
}

/// The people in a room, one for one.
pub open spec fn shows_member_all(r: Seq<MemberItem>, list: Seq<RoomMember>, accounts: Seq<(ObjectId, Account)>) -> bool {
    &&& r.len() == list.len()
    &&& forall|i: int| 0 <= i < r.len() ==> shows_member(#[trigger] r[i], list[i], accounts)
}

/// The people in a room, one for one.
pub fn member_items(items: &Vec<RoomMember>, accounts: &Vec<(ObjectId, Account)>) -> (r: Vec<MemberItem>)
    requires
        members_identified(items@),
    ensures
        shows_member_all(r@, items@, accounts@),
{
    let mut out: Vec<MemberItem> = Vec::new();
    let mut i: usize = 0;
    while i < items.len()
        invariant
            i <= items@.len(),
            members_identified(items@),
            shows_member_all(out@, items@.take(i as int), accounts@),
        decreases items@.len() - i,
    {
        let shown: MemberItem = member_item(&items[i], accounts);
        out.push(shown);
        i = i + 1;
    }
    out
}

/// One page of the people in a room.
pub fn members(page: Paginated<RoomMember>, accounts: &Vec<(ObjectId, Account)>) -> (r: Paginated<MemberItem>)
    requires
        members_identified(page.items@),
    ensures
        same_place(r, page),
        shows_member_all(r.items@, page.items@, accounts@),
{
    Paginated {
        items: member_items(&page.items, accounts),
        total: page.total,
        page: page.page,
        per_page: page.per_page,
        total_pages: page.total_pages,
    }
}

/// Someone in a call, for clients.
#[derive(Debug)]
#[allow(missing_docs)]
pub struct ParticipantItem {
    pub id: String,
    pub user_id: Option<String>,
    pub display_name: Option<String>,
    pub role: Option<String>,
    pub is_muted: bool,
    pub is_video_on: bool,
    pub is_screen_sharing: bool,
    pub is_hand_raised: bool,
}

/// The name of an optional role.
pub open spec fn opt_role(role: Option<ParticipantRole>) -> Option<Seq<char>> {
    match role {
        Some(r) => Some(r.spec_label()@),
        None => None,
    }
}

/// Someone in a call as a client sees them.
pub open spec fn shows_participant(r: ParticipantItem, m: RoomMember) -> bool {
    &&& m.id matches Some(id) && r.id@ == oid_hex(id)
    &&& opt_view(r.user_id) == opt_hex(m.user_id)
    &&& opt_view(r.display_name) == opt_view(m.display_name)
    &&& opt_view(r.role) == opt_role(m.role)
    &&& r.is_muted == m.is_muted
    &&& r.is_video_on == m.is_video_on
    &&& r.is_screen_sharing == m.is_screen_sharing
    &&& r.is_hand_raised == m.is_hand_raised
}

/// Someone in a call as a client sees them.
pub fn participant_item(m: &RoomMember) -> (r: ParticipantItem)
    requires
        m.id is Some,
    ensures
        shows_participant(r, *m),
{
    let role: Option<String> = match m.role {
        Some(r) => Some(r.label().to_owned()),
        None => None,
    };
    ParticipantItem {
        id: m.id.unwrap().to_hex(),
        user_id: hex_of(m.user_id),
        display_name: crate::text::copy_opt(&m.display_name),
        role,
        is_muted: m.is_muted,
        is_video_on: m.is_video_on,
        is_screen_sharing: m.is_screen_sharing,
        is_hand_raised: m.is_hand_raised,
    }
}

/// The people in a call, one for one.
pub open spec fn shows_participant_all(r: Seq<ParticipantItem>, list: Seq<RoomMember>) -> bool {
    &&& r.len() == list.len()
    &&& forall|i: int| 0 <= i < r.len() ==> shows_participant(#[trigger] r[i], list[i])
}

/// The people in a call, one for one.
pub fn participants(items: &Vec<RoomMember>) -> (r: Vec<ParticipantItem>)
    requires
        members_identified(items@),
    ensures
        shows_participant_all(r@, items@),
{
    let mut out: Vec<ParticipantItem> = Vec::new();
    let mut i: usize = 0;
    while i < items.len()
        invariant
            i <= items@.len(),
            members_identified(items@),
            shows_participant_all(out@, items@.take(i as int)),
        decreases items@.len() - i,
    {
        let shown: ParticipantItem = participant_item(&items[i]);
        out.push(shown);
        i = i + 1;
    }
    out
}

/// A message in a call, as it is stored.
#[derive(Debug)]
#[allow(missing_docs)]
pub struct CallMessage {
    pub id: Option<ObjectId>,
    pub room_id: ObjectId,
    pub author_id: ObjectId,
    pub display_name: String,
    pub content: String,
    pub created_at: DateTime,
}

/// A message in a call, for clients.
#[derive(Debug)]
#[allow(missing_docs)]
pub struct CallMessageItem {
    pub id: String,
    pub room_id: String,
    pub author_id: String,
    pub display_name: String,
    pub content: String,
    pub created_at: String,
}

/// A message in a call as a client sees it.
pub open spec fn shows_call_message(r: CallMessageItem, m: CallMessage) -> bool {
    &&& m.id matches Some(id) && r.id@ == oid_hex(id)
    &&& r.room_id@ == oid_hex(m.room_id)
    &&& r.author_id@ == oid_hex(m.author_id)
    &&& r.display_name@ == m.display_name@
    &&& r.content@ == m.content@
    &&& r.created_at@ == time_text(m.created_at)
}

/// A message in a call as a client sees it.
pub fn call_message_item(m: &CallMessage) -> (r: CallMessageItem)
    requires
        m.id is Some,
    ensures
        shows_call_message(r, *m),
{
    CallMessageItem {
        id: m.id.unwrap().to_hex(),
        room_id: m.room_id.to_hex(),
        author_id: m.author_id.to_hex(),
        display_name: m.display_name.clone(),
        content: m.content.clone(),
        created_at: m.created_at.to_text(),
    }
}

/// Every one of them has its id.
pub open spec fn call_messages_identified(list: Seq<CallMessage>) -> bool {
    forall|i: int| 0 <= i < list.len() ==> (#[trigger] list[i]).id is Some
}

/// The messages of a call, one for one.
pub open spec fn shows_call_message_all(r: Seq<CallMessageItem>, list: Seq<CallMessage>) -> bool {
    &&& r.len() == list.len()
    &&& forall|i: int| 0 <= i < r.len() ==> shows_call_message(#[trigger] r[i], list[i])
}

/// The messages of a call, one for one.
pub fn call_message_items(items: &Vec<CallMessage>) -> (r: Vec<CallMessageItem>)
    requires
        call_messages_identified(items@),
    ensures
        shows_call_message_all(r@, items@),
{
    let mut out: Vec<CallMessageItem> = Vec::new();
    let mut i: usize = 0;
    while i < items.len()
        invariant
            i <= items@.len(),
            call_messages_identified(items@),
            shows_call_message_all(out@, items@.take(i as int)),
        decreases items@.len() - i,
    {
        let shown: CallMessageItem = call_message_item(&items[i]);
        out.push(shown);
        i = i + 1;
    }
    out
}

/// One page of the messages of a call.
pub fn call_messages(page: Paginated<CallMessage>) -> (r: Paginated<CallMessageItem>)
    requires
        call_messages_identified(page.items@),
    ensures
        same_place(r, page),
        shows_call_message_all(r.items@, page.items@),
{
    Paginated {
        items: call_message_items(&page.items),
        total: page.total,
        page: page.page,
        per_page: page.per_page,
        total_pages: page.total_pages,
    }
}

/// Who hears of a new message in a call: everyone of the room, the author too.
/// The answer is the event's data.
pub fn create_call_message(message: &CallMessage, members: Vec<ObjectId>) -> (r: Broadcast<
    CallMessageItem,
>)
    requires
        message.id is Some,
    ensures
        r.to == members,
        r.kind@ == "call:message:create"@,
        shows_call_message(r.data, *message),
{
    Broadcast { to: members, kind: "call:message:create", data: call_message_item(message) }
}

/// The capabilities of the media room that was made for a call, or the answer
/// that it could not be made.
pub fn media_room(made: Result<String, String>) -> (r: Result<String, ApiError>)
    ensures
        match made {
            Ok(caps) => r == Ok::<String, ApiError>(caps),
            Err(e) => r matches Err(a) && a@ == (
                ErrorKind::Internal,
                "Failed to create media room: "@ + e@,
            ),
        },
{
    match made {
        Ok(caps) => Ok(caps),
        Err(e) => Err(internal("Failed to create media room: ", e.as_str())),
    }
}

/// Those who are to be told of a call.
#[derive(Debug)]
#[allow(missing_docs)]
pub struct CallNotice {
    pub tenant_id: ObjectId,
    pub room_id: ObjectId,
    pub caller_id: ObjectId,
    pub members: Vec<ObjectId>,
    pub room_name: String,
    pub caller_name: String,
}

/// A text, or none.
pub open spec fn or_empty(s: Option<String>) -> Seq<char> {
    match s {
        Some(t) => t@,
        None => seq![],
    }
}

/// Tells everyone of the room that a call has started; nothing is said in a
/// room without members, and a room that was not found has no name.
pub fn call_started(
    asked: &Admitted<ObjectId>,
    members: Vec<ObjectId>,
    room_name: &Option<String>,
) -> (r: Option<Broadcast<Body>>)
    ensures
        members@.len() == 0 <==> r is None,
        r matches Some(b) ==> {
            &&& b.to == members
            &&& b.kind@ == "room:call_started"@
            &&& b.data@ == seq![
                ("room_id"@, FieldView::Text(oid_hex(asked.request().part))),
                ("room_name"@, FieldView::Text(or_empty(*room_name))),
                ("started_by"@, FieldView::Text(oid_hex(asked.request().user))),
            ]
        },
{
    let name: String = match room_name {
        Some(n) => n.clone(),
        None => String::new(),
    };
    let data: Body = Body::new().id("room_id", *asked.part()).text("room_name", name.as_str()).id(
        "started_by",
        asked.user(),
    );
    unless_nobody(members, "room:call_started", data)
}

/// What those who are to be told of a call are told.
pub fn call_notice(
    asked: &Admitted<ObjectId>,
    members: Vec<ObjectId>,
    room_name: Option<String>,
    names: &Vec<(ObjectId, String)>,
) -> (r: CallNotice)
    ensures
        r.tenant_id == asked.request().tenant,
        r.room_id == asked.request().part,
        r.caller_id == asked.request().user,
        r.members == members,
        r.room_name@ == or_empty(room_name),
        r.caller_name@ == name_or_id(names@, asked.request().user),
{
    CallNotice {
        tenant_id: asked.tenant(),
        room_id: *asked.part(),
        caller_id: asked.user(),
        members,
        room_name: match room_name {
            Some(n) => n,
            None => String::new(),
        },
        caller_name: display_name(names, asked.user()),
    }
}

/// The answer to one who starts a call, with the capabilities of its media
/// room.
pub fn call_start(capabilities: String) -> (r: Body)
    ensures
        r@ == seq![
            ("started"@, FieldView::Flag(true)),
            ("rtp_capabilities"@, FieldView::Document(capabilities@)),
        ],
{
    Body::new().flag("started", true).document("rtp_capabilities", capabilities)
}

/// Someone who is to be put into a call.
#[derive(Debug)]
#[allow(missing_docs)]
pub struct NewParticipant {
    pub tenant_id: ObjectId,
    pub room_id: ObjectId,
    pub user_id: ObjectId,
    pub display_name: String,
    pub device_type: &'static str,
}

/// Who is put into a call.
pub fn participant(asked: &Admitted<ObjectId>, display_name: String) -> (r: NewParticipant)
    ensures
        r.tenant_id == asked.request().tenant,
        r.room_id == asked.request().part,
        r.user_id == asked.request().user,
        r.display_name == display_name,
        r.device_type@ == "web"@,
{
    NewParticipant {
        tenant_id: asked.tenant(),
        room_id: *asked.part(),
        user_id: asked.user(),
        display_name,
        device_type: "web",
    }
}

/// Tells everyone of the room how many are in the call; a room that was not
/// found has nobody in it.
pub fn call_updated(asked: &Admitted<ObjectId>, room: &Option<Room>, members: Vec<ObjectId>) -> (r:
    Option<Broadcast<Body>>)
    ensures
        members@.len() == 0 <==> r is None,
        r matches Some(b) ==> {
            &&& b.to == members
            &&& b.kind@ == "room:call_updated"@
            &&& b.data@ == seq![
                ("room_id"@, FieldView::Text(oid_hex(asked.request().part))),
                (
                    "participant_count"@,
                    FieldView::Number(
                        match *room {
                            Some(m) => m.participant_count as nat,
                            None => 0,
                        },
                    ),
                ),
                ("conference_status"@, FieldView::Text("in_progress"@)),
            ]
        },
{
    let count: u64 = match room {
        Some(m) => m.participant_count as u64,
        None => 0,
    };
    let data: Body = Body::new().id("room_id", *asked.part()).number(
        "participant_count",
        count,
    ).text("conference_status", "in_progress");
    unless_nobody(members, "room:call_updated", data)
}

/// The answer to one who joins a call.
pub fn call_join(member: ObjectId) -> (r: Body)
    ensures
        r@ == seq![
            ("member_id"@, FieldView::Text(oid_hex(member))),
            ("joined"@, FieldView::Flag(true)),
        ],
{
    Body::new().id("member_id", member).flag("joined", true)
}

/// Tells those who remain in a call that one has left.
pub fn peer_left(asked: &Admitted<ObjectId>, remaining: Vec<ObjectId>) -> (r: Option<
    Broadcast<Body>,
>)
    ensures
        remaining@.len() == 0 <==> r is None,
        r matches Some(b) ==> {
            &&& b.to == remaining
            &&& b.kind@ == "media:peer_left"@
            &&& b.data@ == seq![
                ("room_id"@, FieldView::Text(oid_hex(asked.request().part))),
                ("user_id"@, FieldView::Text(oid_hex(asked.request().user))),
            ]
        },
{
    let data: Body = Body::new().id("room_id", *asked.part()).id("user_id", asked.user());
    unless_nobody(remaining, "media:peer_left", data)
}

/// A call that is under way and that nobody is in any more.
pub open spec fn deserted(room: Room) -> bool {
    room.participant_count == 0 && opt_view(room.conference_status) == Some("in_progress"@)
}

/// Whether a call ends because the last one has left it; a room that was not
/// found has no call to end.
pub fn call_leave(room: &Option<Room>) -> (r: bool)
    ensures
        r == (*room matches Some(m) && deserted(m)),
{
    match room {
        Some(m) => {
            if m.participant_count != 0 {
                return false;
            }
            match &m.conference_status {
                Some(s) => crate::text::same(s.as_str(), "in_progress"),
                None => false,
            }
        },
        None => false,
    }
}

/// Tells everyone of the room that the call has ended.
pub fn call_ended(asked: &Admitted<ObjectId>, members: Vec<ObjectId>) -> (r: Option<
    Broadcast<Body>,
>)
    ensures
        members@.len() == 0 <==> r is None,
        r matches Some(b) ==> {
            &&& b.to == members
            &&& b.kind@ == "room:call_ended"@
            &&& b.data@ == seq![("room_id"@, FieldView::Text(oid_hex(asked.request().part)))]
        },
{
    let data: Body = Body::new().id("room_id", *asked.part());
    unless_nobody(members, "room:call_ended", data)
}

/// Tells those who remain in a call that its media room is closed.
pub fn room_closed(asked: &Admitted<ObjectId>, remaining: Vec<ObjectId>) -> (r: Option<
    Broadcast<Body>,
>)
    ensures
        remaining@.len() == 0 <==> r is None,
        r matches Some(b) ==> {
            &&& b.to == remaining
            &&& b.kind@ == "media:room_closed"@
            &&& b.data@ == seq![("room_id"@, FieldView::Text(oid_hex(asked.request().part)))]
        },
{
    let data: Body = Body::new().id("room_id", *asked.part());
    unless_nobody(remaining, "media:room_closed", data)
}

/// The answer to one who ends a call.
pub fn call_end(outcome: Result<(), DaoError>) -> (r: Result<Body, ApiError>)
    ensures
        match outcome {
            Ok(()) => r matches Ok(b) && b@ == said("ended"@, true),
            Err(e) => r matches Err(a) && a@ == dao_answer(e),
        },
{
    done("ended", outcome)
}

/// What a client sees of a room is its own.
pub proof fn rooms_show_their_own(r: RoomResponse, m: Room)
    requires
        shows(r, m),
    ensures
        crate::oid::oid_parsed(r.id@) == m.id,
        r.name@ == m.name@,
        r.path@ == m.path@,
        r.parent_id is Some <==> m.parent_id is Some,
        r.parent_id matches Some(s) ==> crate::oid::oid_parsed(s@) == m.parent_id,
        r.is_open == m.is_open,
        r.member_count == m.member_count,
        r.message_count == m.message_count,
        r.has_media == m.media_settings is Some,
        r.conference_status is Some <==> m.conference_status is Some,
        r.conference_status matches Some(s) ==> s@ == m.conference_status.unwrap()@,
        r.meeting_code is Some <==> m.meeting_code is Some,
        r.meeting_code matches Some(s) ==> s@ == m.meeting_code.unwrap()@,
        r.participant_count == m.participant_count,
{
    crate::oid::hex_round_trip(m.id.unwrap());
    crate::oid::hex_round_trip(m.parent_id.unwrap());
}

/// What a client sees of a member of a room is that member's own: the name of
/// the account where there is one, else the name of the guest.
pub proof fn room_members_show_their_own(
    r: MemberItem,
    m: RoomMember,
    accounts: Seq<(ObjectId, Account)>,
)
    requires
        shows_member(r, m, accounts),
    ensures
        crate::oid::oid_parsed(r.id@) == m.id,
        r.user_id is Some <==> m.user_id is Some,
        r.user_id matches Some(s) ==> crate::oid::oid_parsed(s@) == m.user_id,
        crate::oid::oid_parsed(r.room_id@) == Some(m.room_id),
        m.user_id is None ==> r.username is None && r.avatar is None,
        m.user_id matches Some(u) ==> {
            &&& r.username is Some <==> entry(accounts, u) is Some
            &&& entry(accounts, u) matches Some(a) ==> r.username.unwrap()@ == a.username@
                && r.display_name@ == a.display_name@ && opt_view(r.avatar) == opt_view(a.avatar)
        },
        r.username is None ==> r.avatar is None && match m.display_name {
            Some(n) => r.display_name@ == n@,
            None => r.display_name@.len() == 0,
        },
        r.joined_at@ == time_text(m.joined_at),
        r.unread_count == m.unread_count,
        r.is_muted == m.is_muted,
{
    crate::oid::hex_round_trip(m.id.unwrap());
    crate::oid::hex_round_trip(m.user_id.unwrap());
    crate::oid::hex_round_trip(m.room_id);
}

/// What a client sees of a participant of a call is that participant's own.
pub proof fn callers_show_their_own(r: ParticipantItem, m: RoomMember)
    requires
        shows_participant(r, m),
    ensures
        crate::oid::oid_parsed(r.id@) == m.id,
        r.user_id is Some <==> m.user_id is Some,
        r.user_id matches Some(s) ==> crate::oid::oid_parsed(s@) == m.user_id,
        r.display_name is Some <==> m.display_name is Some,
        r.display_name matches Some(s) ==> s@ == m.display_name.unwrap()@,
        r.role is Some <==> m.role is Some,
        r.role matches Some(s) ==> s@ == m.role.unwrap().spec_label()@,
        r.is_muted == m.is_muted,
        r.is_video_on == m.is_video_on,
        r.is_screen_sharing == m.is_screen_sharing,
        r.is_hand_raised == m.is_hand_raised,
{
    crate::oid::hex_round_trip(m.id.unwrap());
    crate::oid::hex_round_trip(m.user_id.unwrap());
}

/// What a client sees of a message of a call is its own.
pub proof fn call_messages_show_their_own(r: CallMessageItem, m: CallMessage)
    requires
        shows_call_message(r, m),
    ensures
        crate::oid::oid_parsed(r.id@) == m.id,
        crate::oid::oid_parsed(r.room_id@) == Some(m.room_id),
        crate::oid::oid_parsed(r.author_id@) == Some(m.author_id),
        r.display_name@ == m.display_name@,
        r.content@ == m.content@,
        r.created_at@ == time_text(m.created_at),
{
    crate::oid::hex_round_trip(m.id.unwrap());
    crate::oid::hex_round_trip(m.room_id);
    crate::oid::hex_round_trip(m.author_id);
}

/// Of a list everything is shown, one for one and in its order.
pub proof fn rooms_are_shown_in_order(r: Seq<RoomResponse>, list: Seq<Room>, i: int)
    requires
        shows_all(r, list),
    ensures
        r.len() == list.len(),
        0 <= i < r.len() ==> shows(r[i], list[i]),
        0 <= i < r.len() ==> crate::oid::oid_parsed(r[i].id@) == list[i].id,
{
    crate::oid::hex_round_trip(list[i].id.unwrap());
    if 0 <= i < r.len() {
        assert(shows(r[i], list[i]));
    }
}

/// Of a list everything is shown, one for one and in its order.
pub proof fn room_members_are_shown_in_order(
    r: Seq<MemberItem>,
    list: Seq<RoomMember>,
    accounts: Seq<(ObjectId, Account)>,
    i: int,
)
    requires
        shows_member_all(r, list, accounts),
    ensures
        r.len() == list.len(),
        0 <= i < r.len() ==> shows_member(r[i], list[i], accounts),
        0 <= i < r.len() ==> crate::oid::oid_parsed(r[i].id@) == list[i].id,
{
    crate::oid::hex_round_trip(list[i].id.unwrap());
    if 0 <= i < r.len() {
        assert(shows_member(r[i], list[i], accounts));
    }
}

/// Of a list everything is shown, one for one and in its order.
pub proof fn callers_are_shown_in_order(r: Seq<ParticipantItem>, list: Seq<RoomMember>, i: int)
    requires
        shows_participant_all(r, list),
    ensures
        r.len() == list.len(),
        0 <= i < r.len() ==> shows_participant(r[i], list[i]),
        0 <= i < r.len() ==> crate::oid::oid_parsed(r[i].id@) == list[i].id,
{
    crate::oid::hex_round_trip(list[i].id.unwrap());
    if 0 <= i < r.len() {
        assert(shows_participant(r[i], list[i]));
    }
}

/// Of a list everything is shown, one for one and in its order.
pub proof fn call_messages_are_shown_in_order(
    r: Seq<CallMessageItem>,
    list: Seq<CallMessage>,
    i: int,
)
    requires
        shows_call_message_all(r, list),
    ensures
        r.len() == list.len(),
        0 <= i < r.len() ==> shows_call_message(r[i], list[i]),
        0 <= i < r.len() ==> crate::oid::oid_parsed(r[i].id@) == list[i].id,
{
    crate::oid::hex_round_trip(list[i].id.unwrap());
    if 0 <= i < r.len() {
        assert(shows_call_message(r[i], list[i]));
    }
}

} // verus!
