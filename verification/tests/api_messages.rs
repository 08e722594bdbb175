//! Requests, posting messages, rooms, reactions, conferences.
use roomler::api::conference::{
    chat_create, chat_list, chat_open, conference_request, ConferenceChatMessage,
};
use roomler::api::error::{
    auth_error, dao_error, settled, ApiError, AuthError, DaoError, ErrorResponse,
};
use roomler::api::message::{
    collect_author_ids, delete, deleted, list, mark_read, marked, message_request, pinned,
    thread_request, to_response, toggle_pin, unread_count, updated, CreateMessageRequest,
    MarkReadRequest, MentionRequest, RoomMessage, TogglePinRequest,
};
use roomler::api::posting::{begin, stored, NewMessage, Posting, Stored};
use roomler::api::reaction::{add, add_request, remove, remove_request, removed, removed_from};
use roomler::api::room::{
    call_end, call_ended, call_join, call_leave, call_notice, call_start, call_started,
    call_updated, create, create_call_message, media_room, member_users, members, participant,
    participants, peer_left, room_closed, Account, CallMessage, CreateRoomRequest, Room, RoomMember,
};
use roomler::api::scope::{
    all_but, holds, item_request, pair_request, parse_id, parse_ids, parse_opt_id, room_request,
    tenant_request, Admitted,
};
use roomler::api::wire::{Body, Field, Paginated};
use roomler::models::conference::{
    Conference, ConferenceSettings, ConferenceStatus, ConferenceType,
};
use roomler::models::conference_participant::ParticipantRole;
use roomler::models::file::{
    File, FileContext, FileContextType, ScanStatus, Thumbnail,
};
use roomler::models::message::{MessageAttachment, MessageType, ReactionSummary, ThreadMetadata};
use roomler::models::recording::{StorageProvider, Visibility};
use roomler::oid::{DateTime, ObjectId};

const TENANT: &str = "507f1f77bcf86cd799439011";
const ROOM: &str = "507f1f77bcf86cd799439012";
const MESSAGE: &str = "507f1f77bcf86cd799439013";

fn oid(n: u64) -> ObjectId {
    ObjectId { hi: 0, lo: n }
}

fn answer(e: ApiError) -> (u16, String, String) {
    let (status, ErrorResponse { error, message }) = e.into_response();
    (status, error, message)
}

fn fields(b: &Body) -> String {
    b.fields
        .iter()
        .map(|(k, v)| match v {
            Field::Null => format!("{}=null", k),
            Field::Flag(x) => format!("{}={}", k, x),
            Field::Number(x) => format!("{}={}", k, x),
            Field::Text(x) => format!("{}={}", k, x),
            Field::Document(x) => format!("{}:{}", k, x),
        })
        .collect::<Vec<_>>()
        .join(",")
}

fn in_room(user: u64) -> Admitted<ObjectId> {
    room_request(TENANT, ROOM, oid(user)).unwrap().grant(Ok(true)).unwrap()
}

fn at_message(user: u64) -> Admitted<(ObjectId, ObjectId)> {
    message_request(TENANT, ROOM, MESSAGE, oid(user)).unwrap().grant(Ok(true)).unwrap()
}

fn message(id: u64, author: u64) -> RoomMessage {
    RoomMessage {
        id: Some(oid(id)),
        room_id: oid(900),
        thread_id: None,
        is_thread_root: false,
        thread_metadata: None,
        author_id: oid(author),
        content: "hello".to_string(),
        message_type: MessageType::Default,
        attachments: vec![],
        reaction_summary: vec![],
        referenced_message_id: None,
        readby: vec![],
        is_pinned: false,
        is_edited: false,
        created_at: DateTime { millis: 0 },
        updated_at: DateTime { millis: 1000 },
    }
}

#[test]
fn every_error_has_its_status_and_name() {
    let s = "why".to_string();
    let expect = |e, status, name: &str| {
        assert_eq!(answer(e), (status, name.to_string(), "why".to_string()))
    };
    expect(ApiError::NotFound(s.clone()), 404, "not_found");
    expect(ApiError::BadRequest(s.clone()), 400, "bad_request");
    expect(ApiError::Unauthorized(s.clone()), 401, "unauthorized");
    expect(ApiError::Forbidden(s.clone()), 403, "forbidden");
    expect(ApiError::Conflict(s.clone()), 409, "conflict");
    expect(ApiError::Internal(s.clone()), 500, "internal");
    expect(ApiError::Validation(s), 422, "validation");
}

#[test]
fn database_errors_are_answered_by_their_kind() {
    let m = || "why".to_string();
    assert_eq!(
        answer(dao_error(DaoError::NotFound)),
        (404, "not_found".to_string(), "Resource not found".to_string())
    );
    assert_eq!(answer(dao_error(DaoError::DuplicateKey(m()))).0, 409);
    assert_eq!(answer(dao_error(DaoError::Forbidden(m()))).0, 403);
    assert_eq!(answer(dao_error(DaoError::Validation(m()))).0, 422);
    assert_eq!(answer(dao_error(DaoError::Mongo(m()))).0, 500);
    assert_eq!(answer(dao_error(DaoError::BsonSer(m()))).0, 500);
    assert_eq!(answer(dao_error(DaoError::BsonDe(m()))).0, 500);
    assert_eq!(settled(Ok::<u8, DaoError>(3)).unwrap(), 3);
    assert_eq!(answer(settled::<u8>(Err(DaoError::NotFound)).unwrap_err()).0, 404);
}

#[test]
fn authentication_errors_are_answered_by_their_kind() {
    assert_eq!(answer(auth_error(AuthError::InvalidCredentials)).2, "Invalid credentials");
    assert_eq!(answer(auth_error(AuthError::TokenExpired)).2, "Token expired");
    assert_eq!(answer(auth_error(AuthError::InvalidToken("x".to_string()))).0, 401);
    assert_eq!(answer(auth_error(AuthError::HashError("x".to_string()))).0, 500);
}

#[test]
fn the_first_id_that_is_none_is_named() {
    let u = oid(1);
    assert_eq!(answer(tenant_request("x", u).unwrap_err()).2, "Invalid tenant_id");
    assert_eq!(answer(room_request("x", "y", u).unwrap_err()).2, "Invalid tenant_id");
    assert_eq!(answer(room_request(TENANT, "y", u).unwrap_err()).2, "Invalid room_id");
    assert_eq!(
        answer(message_request(TENANT, ROOM, "y", u).unwrap_err()),
        (400, "bad_request".to_string(), "Invalid message_id".to_string())
    );
    assert_eq!(
        answer(item_request(TENANT, "y", "agent_id", u).unwrap_err()).2,
        "Invalid agent_id"
    );
    assert_eq!(
        answer(pair_request(TENANT, "y", "a", "z", "b", u).unwrap_err()).2,
        "Invalid a"
    );
    assert_eq!(answer(parse_id("", "task_id").unwrap_err()).2, "Invalid task_id");
    assert_eq!(parse_opt_id(&None, "x").unwrap(), None);
    assert_eq!(
        parse_opt_id(&Some(TENANT.to_string()), "x").unwrap(),
        ObjectId::parse_str(TENANT)
    );
    assert_eq!(answer(parse_opt_id(&Some("y".to_string()), "x").unwrap_err()).2, "Invalid x");
    assert!(thread_request(TENANT, MESSAGE, u).is_ok());
}

#[test]
fn only_members_get_in() {
    let ask = || room_request(TENANT, ROOM, oid(1)).unwrap();
    let a = ask().grant(Ok(true)).unwrap();
    assert_eq!(a.tenant().to_hex(), TENANT);
    assert_eq!(a.part().to_hex(), ROOM);
    assert_eq!(a.user(), oid(1));
    assert_eq!(
        answer(ask().grant(Ok(false)).unwrap_err()),
        (403, "forbidden".to_string(), "Not a member".to_string())
    );
    assert_eq!(answer(ask().grant(Err(DaoError::NotFound)).unwrap_err()).0, 404);
}

#[test]
fn ids_that_are_none_are_passed_over() {
    let list = vec![TENANT.to_string(), "x".to_string(), ROOM.to_string()];
    let ids = parse_ids(&list);
    assert_eq!(ids.len(), 2);
    assert_eq!(ids[0].to_hex(), TENANT);
    assert_eq!(ids[1].to_hex(), ROOM);
    assert_eq!(
        all_but(&vec![oid(1), oid(2), oid(1), oid(3)], oid(1)),
        vec![oid(2), oid(3)]
    );
    assert!(holds(&vec![oid(1), oid(2)], oid(2)));
    assert!(!holds(&vec![], oid(2)));
}

#[test]
fn authors_come_once_and_in_order() {
    let list = vec![message(1, 30), message(2, 10), message(3, 30), message(4, 20)];
    assert_eq!(collect_author_ids(&list), vec![oid(10), oid(20), oid(30)]);
    assert_eq!(collect_author_ids(&vec![]), vec![]);
}

#[test]
fn a_message_is_shown_in_full() {
    let mut m = message(0x11, 0x22);
    m.thread_id = Some(oid(7));
    m.is_thread_root = true;
    m.message_type = MessageType::Reply;
    m.readby = vec![oid(5)];
    m.thread_metadata = Some(ThreadMetadata {
        reply_count: 4,
        last_reply_at: Some(DateTime { millis: 0 }),
        last_reply_user_id: Some(oid(9)),
        participant_ids: vec![],
        is_locked: false,
        is_archived: false,
    });
    m.reaction_summary = vec![ReactionSummary { emoji: "+1".to_string(), count: 2 }];
    m.attachments = vec![MessageAttachment {
        file_id: oid(3),
        filename: "a.txt".to_string(),
        content_type: "text/plain".to_string(),
        size: 12,
        url: "/u".to_string(),
        thumbnail_url: Some("/t".to_string()),
        is_spoiler: false,
    }];
    let names = vec![(oid(0x22), "Ann".to_string())];
    let r = to_response(&m, &names, Some(oid(5)));
    assert_eq!(r.id, "000000000000000000000011");
    assert_eq!(r.author_name, "Ann");
    assert_eq!(r.message_type, "Reply");
    assert!(r.is_read && r.is_thread_root && !r.is_pinned && !r.is_edited);
    assert_eq!(r.thread_id.as_deref(), Some("000000000000000000000007"));
    assert_eq!(r.referenced_message_id, None);
    assert_eq!(r.reply_count, Some(4));
    assert_eq!(r.last_reply_at.as_deref(), Some("1970-01-01T00:00:00Z"));
    assert_eq!(r.last_reply_user_id.as_deref(), Some("000000000000000000000009"));
    assert_eq!(r.reaction_summary[0].count, 2);
    assert_eq!(r.attachments[0].file_id, "000000000000000000000003");
    assert_eq!(r.attachments[0].thumbnail_url.as_deref(), Some("/t"));
    assert_eq!(r.updated_at, "1970-01-01T00:00:01Z");
    let other = to_response(&m, &vec![], None);
    assert_eq!(other.author_name, "000000000000000000000022");
    assert!(!other.is_read);
}

#[test]
fn pages_keep_their_place() {
    let page = Paginated {
        items: vec![message(1, 2), message(3, 4)],
        total: 12,
        page: 2,
        per_page: 2,
        total_pages: 6,
    };
    let r = list(&in_room(2), page, &vec![]);
    assert_eq!((r.total, r.page, r.per_page, r.total_pages), (12, 2, 2, 6));
    assert_eq!(r.items[1].author_id, oid(4).to_hex());
    assert_eq!(pinned(&in_room(2), &vec![message(1, 2)], &vec![]).len(), 1);
}

#[test]
fn only_the_author_deletes() {
    assert!(delete(&at_message(5), &message(1, 5)).is_ok());
    assert_eq!(
        answer(delete(&at_message(6), &message(1, 5)).unwrap_err()),
        (403, "forbidden".to_string(), "Only the author can delete this message".to_string())
    );
    let (event, body) = deleted(&at_message(5), MESSAGE, ROOM, &vec![oid(5), oid(6)]);
    assert_eq!(event.to, vec![oid(6)]);
    assert_eq!(event.kind, "message:delete");
    assert_eq!(fields(&event.data), format!("id={},room_id={}", MESSAGE, ROOM));
    assert_eq!(fields(&body), "deleted=true");
}

#[test]
fn edits_and_pins_are_told() {
    let event = updated(&at_message(5), &message(1, 5), &vec![], &vec![oid(5), oid(6)]);
    assert_eq!(event.kind, "message:update");
    assert_eq!(event.to, vec![oid(6)]);
    let (event, body) =
        toggle_pin(&TogglePinRequest { pinned: true }, MESSAGE, ROOM, vec![oid(5), oid(6)]);
    assert_eq!(event.kind, "message:pin");
    assert_eq!(event.to, vec![oid(5), oid(6)]);
    assert_eq!(fields(&body), "pinned=true");
    let (event, _) = toggle_pin(&TogglePinRequest { pinned: false }, MESSAGE, ROOM, vec![]);
    assert_eq!(event.kind, "message:unpin");
    assert_eq!(
        fields(&event.data),
        format!("message_id={},room_id={},pinned=false", MESSAGE, ROOM)
    );
}

#[test]
fn reading_is_counted() {
    let body = MarkReadRequest { message_ids: vec![MESSAGE.to_string(), "x".to_string()] };
    assert_eq!(mark_read(&body).len(), 1);
    assert_eq!(fields(&marked(3)), "marked=3");
    assert_eq!(fields(&unread_count(9)), "count=9");
}

fn body(files: &[&str], mentions: Option<MentionRequest>) -> CreateMessageRequest {
    CreateMessageRequest {
        content: "hello".to_string(),
        thread_id: None,
        referenced_message_id: None,
        nonce: Some("n".to_string()),
        mentions,
        attachment_ids: files.iter().map(|s| s.to_string()).collect(),
    }
}

fn file(id: u64) -> File {
    File {
        id: Some(oid(id)),
        tenant_id: oid(1),
        uploaded_by: oid(1),
        context: FileContext {
            context_type: FileContextType::Channel,
            entity_id: oid(1),
            channel_id: None,
        },
        filename: "f".to_string(),
        display_name: None,
        description: None,
        storage_provider: StorageProvider::Local,
        storage_bucket: String::new(),
        storage_key: String::new(),
        url: "/f".to_string(),
        content_type: "text/plain".to_string(),
        size: 5,
        checksum: None,
        dimensions: None,
        duration: None,
        thumbnails: vec![Thumbnail {
            size: "s".to_string(),
            url: "/t".to_string(),
            width: 1,
            height: 1,
        }],
        version: 1,
        previous_version_id: None,
        is_current_version: true,
        external_source: None,
        scan_status: ScanStatus::Pending,
        visibility: Visibility::Members,
        created_at: DateTime { millis: 0 },
        updated_at: DateTime { millis: 0 },
        deleted_at: None,
    }
}

fn to_store(p: Posting) -> NewMessage {
    match p {
        Posting::Store(m) => m,
        Posting::Search(_) => panic!("still searching"),
    }
}

#[test]
fn a_wrong_thread_is_refused_before_a_wrong_reference() {
    let mut b = body(&[], None);
    b.thread_id = Some("x".to_string());
    b.referenced_message_id = Some("y".to_string());
    assert_eq!(answer(begin(&in_room(1), b).unwrap_err()).2, "Invalid thread_id");
    let mut b = body(&[], None);
    b.referenced_message_id = Some("y".to_string());
    assert_eq!(
        answer(begin(&in_room(1), b).unwrap_err()).2,
        "Invalid referenced_message_id"
    );
}

#[test]
fn files_are_attached_in_order_and_the_missing_are_passed_over() {
    let b = body(&[TENANT, "no id", ROOM, MESSAGE], None);
    let mut p = begin(&in_room(1), b).unwrap();
    let mut wanted = vec![];
    let mut n = 0;
    let m = loop {
        match p {
            Posting::Search(s) => {
                wanted.push(s.wanted().to_hex());
                n += 1;
                p = s.found(if n == 2 { Err(DaoError::NotFound) } else { Ok(file(n)) });
            }
            Posting::Store(m) => break m,
        }
    };
    assert_eq!(wanted, vec![TENANT, ROOM, MESSAGE]);
    assert_eq!(m.attachments.len(), 2);
    assert_eq!(m.attachments[0].file_id, oid(1));
    assert_eq!(m.attachments[1].file_id, oid(3));
    assert_eq!(m.attachments[0].thumbnail_url.as_deref(), Some("/t"));
    assert!(!m.attachments[0].is_spoiler);
    assert_eq!(m.author_id, oid(1));
    assert_eq!(m.room_id.to_hex(), ROOM);
    assert_eq!(m.nonce.as_deref(), Some("n"));
}

#[test]
fn a_message_that_is_not_stored_ends_the_post() {
    let m = to_store(begin(&in_room(1), body(&[], None)).unwrap());
    let e = stored(m, Err(DaoError::Validation("too long".to_string()))).unwrap_err();
    assert_eq!(answer(e), (422, "validation".to_string(), "too long".to_string()));
}

fn posted(user: u64, b: CreateMessageRequest) -> Stored {
    stored(to_store(begin(&in_room(user), b).unwrap()), Ok(message(77, user))).unwrap()
}

#[test]
fn everyone_but_the_author_hears_of_a_message() {
    let s = posted(1, body(&[], None));
    let names = vec![(oid(1), "Ann".to_string())];
    let (event, rest) = s.announce(names, Ok(vec![oid(1), oid(2), oid(3)])).unwrap();
    assert_eq!(event.to, vec![oid(2), oid(3)]);
    assert_eq!(event.kind, "message:create");
    assert_eq!(event.data.author_name, "Ann");
    assert_eq!(rest.message_id, oid(77));
    assert_eq!(rest.parent(), None);
    assert!(!rest.mentions_someone());
    assert!(rest.notice(Ok("r".to_string())).is_none());
    let e = posted(1, body(&[], None)).announce(vec![], Err(DaoError::NotFound)).unwrap_err();
    assert_eq!(answer(e).0, 404);
}

#[test]
fn a_reply_updates_its_thread_for_everyone() {
    let mut b = body(&[], None);
    b.thread_id = Some(MESSAGE.to_string());
    let (_, rest) = posted(1, b).announce(vec![], Ok(vec![oid(1), oid(2)])).unwrap();
    assert_eq!(rest.parent().unwrap().to_hex(), MESSAGE);
    let mut parent = message(5, 2);
    parent.readby = vec![oid(1)];
    let event = rest.thread_grew(&parent, &vec![]);
    assert_eq!(event.to, vec![oid(1), oid(2)]);
    assert_eq!(event.kind, "message:update");
    assert!(!event.data.is_read);
}

#[test]
fn the_mentioned_are_told_but_not_the_author() {
    let me = oid(1).to_hex();
    let you = oid(2).to_hex();
    let named = MentionRequest {
        users: vec![me.clone(), you.clone(), "x".to_string()],
        everyone: false,
        here: true,
    };
    let (_, rest) =
        posted(1, body(&[], Some(named))).announce(vec![], Ok(vec![oid(1), oid(3)])).unwrap();
    assert!(rest.mentions_someone());
    assert!(rest.request.mentions.as_ref().unwrap().here);
    let n = rest.notice(Err(DaoError::NotFound)).unwrap();
    assert_eq!(n.mentioned, vec![oid(2)]);
    assert_eq!(n.room_name, "");
    assert_eq!(n.mentioner_name, me);
    let all = MentionRequest { users: vec![you], everyone: true, here: false };
    let (_, rest) = posted(1, body(&[], Some(all)))
        .announce(vec![(oid(1), "Ann".to_string())], Ok(vec![oid(1), oid(3), oid(4)]))
        .unwrap();
    let n = rest.notice(Ok("general".to_string())).unwrap();
    assert_eq!(n.mentioned, vec![oid(3), oid(4)]);
    assert_eq!(n.room_name, "general");
    assert_eq!(n.mentioner_name, "Ann");
    assert_eq!(n.content, "hello");
    assert_eq!(n.message_id, oid(77));
}

#[test]
fn reactions_are_told_to_the_channel() {
    let a = add_request(TENANT, ROOM, MESSAGE, oid(1)).unwrap().grant(Ok(true)).unwrap();
    assert_eq!(
        answer(add_request(TENANT, "x", MESSAGE, oid(1)).unwrap_err()).2,
        "Invalid channel_id"
    );
    let (event, body) = add(&a, MESSAGE, ROOM, "+1", vec![oid(1)]);
    assert_eq!(event.kind, "message:reaction");
    assert_eq!(
        fields(&event.data),
        format!(
            "action=add,message_id={},channel_id={},user_id={},emoji=+1",
            MESSAGE,
            ROOM,
            oid(1).to_hex()
        )
    );
    assert_eq!(fields(&body), "added=true");
    let a = remove_request(TENANT, MESSAGE, oid(1)).unwrap().grant(Ok(true)).unwrap();
    assert_eq!(removed_from(false, "x").unwrap(), None);
    assert_eq!(removed_from(true, ROOM).unwrap().unwrap().to_hex(), ROOM);
    assert_eq!(answer(removed_from(true, "x").unwrap_err()).2, "Invalid channel_id");
    assert!(fields(&remove(&a, MESSAGE, ROOM, "+1", vec![]).data).starts_with("action=remove,"));
    assert_eq!(fields(&removed(false)), "removed=false");
}

fn room(count: u32, status: Option<&str>) -> Room {
    Room {
        id: Some(oid(9)),
        name: "general".to_string(),
        path: "/general".to_string(),
        parent_id: None,
        is_open: true,
        member_count: 3,
        message_count: 4,
        media_settings: None,
        conference_status: status.map(|s| s.to_string()),
        meeting_code: None,
        participant_count: count,
    }
}

#[test]
fn rooms_are_shown_and_made() {
    let r = roomler::api::room::to_response(&room(2, Some("in_progress")));
    assert_eq!(r.id, oid(9).to_hex());
    assert!(!r.has_media && r.is_open);
    assert_eq!(r.conference_status.as_deref(), Some("in_progress"));
    assert_eq!(r.participant_count, 2);
    let t = tenant_request(TENANT, oid(1)).unwrap().grant(Ok(true)).unwrap();
    let ask = |parent: Option<&str>| CreateRoomRequest {
        name: "n".to_string(),
        parent_id: parent.map(|s| s.to_string()),
        is_open: false,
        media_settings: None,
    };
    let n = create(&t, ask(Some(ROOM))).unwrap();
    assert_eq!(n.parent_id.unwrap().to_hex(), ROOM);
    assert_eq!(n.creator_id, oid(1));
    assert_eq!(create(&t, ask(None)).unwrap().parent_id, None);
    assert_eq!(answer(create(&t, ask(Some("x"))).unwrap_err()).2, "Invalid parent_id");
    assert_eq!(fields(&roomler::api::room::join(Ok(())).unwrap()), "joined=true");
    assert_eq!(fields(&roomler::api::room::leave(Ok(())).unwrap()), "left=true");
    assert_eq!(fields(&roomler::api::room::update(Ok(())).unwrap()), "updated=true");
    assert_eq!(fields(&roomler::api::room::delete(Ok(())).unwrap()), "deleted=true");
    assert!(roomler::api::room::join(Err(DaoError::NotFound)).is_err());
}

fn member(user: Option<u64>, name: Option<&str>) -> RoomMember {
    RoomMember {
        id: Some(oid(50)),
        user_id: user.map(oid),
        room_id: oid(9),
        display_name: name.map(|s| s.to_string()),
        role: Some(ParticipantRole::Attendee),
        joined_at: DateTime { millis: 0 },
        unread_count: 1,
        is_muted: true,
        is_video_on: false,
        is_screen_sharing: false,
        is_hand_raised: true,
    }
}

#[test]
fn members_go_by_the_name_of_their_account() {
    let page = Paginated {
        items: vec![
            member(Some(1), Some("in the room")),
            member(Some(2), Some("in the room")),
            member(None, None),
        ],
        total: 3,
        page: 1,
        per_page: 10,
        total_pages: 1,
    };
    assert_eq!(member_users(&page.items), vec![oid(1), oid(2)]);
    let accounts = vec![(
        oid(1),
        Account {
            username: "ann".to_string(),
            avatar: None,
            display_name: "Ann".to_string(),
        },
    )];
    let r = members(page, &accounts);
    assert_eq!(r.items[0].display_name, "Ann");
    assert_eq!(r.items[0].username.as_deref(), Some("ann"));
    assert_eq!(r.items[1].display_name, "in the room");
    assert_eq!(r.items[1].username, None);
    assert_eq!(r.items[2].display_name, "");
    assert_eq!(r.items[2].user_id, None);
    let p = participants(&vec![member(Some(1), None)]);
    assert_eq!(p[0].role.as_deref(), Some("Attendee"));
    assert!(p[0].is_hand_raised);
}

#[test]
fn a_call_ends_when_the_last_one_leaves() {
    assert!(call_leave(&Some(room(0, Some("in_progress")))));
    assert!(!call_leave(&Some(room(1, Some("in_progress")))));
    assert!(!call_leave(&Some(room(0, Some("ended")))));
    assert!(!call_leave(&Some(room(0, None))));
    assert!(!call_leave(&None));
}

#[test]
fn calls_are_told_to_the_room() {
    let a = in_room(1);
    assert!(call_started(&a, vec![], &None).is_none());
    let e = call_started(&a, vec![oid(2)], &Some("general".to_string())).unwrap();
    assert_eq!(e.kind, "room:call_started");
    assert_eq!(
        fields(&e.data),
        format!("room_id={},room_name=general,started_by={}", ROOM, oid(1).to_hex())
    );
    let n = call_notice(&a, vec![oid(2)], None, &vec![]);
    assert_eq!((n.room_name.as_str(), n.caller_name), ("", oid(1).to_hex()));
    assert_eq!(
        fields(&call_start("{}".to_string())),
        "started=true,rtp_capabilities:{}"
    );
    assert_eq!(media_room(Ok("{}".to_string())).unwrap(), "{}");
    assert_eq!(
        answer(media_room(Err("no worker".to_string())).unwrap_err()),
        (500, "internal".to_string(), "Failed to create media room: no worker".to_string())
    );
    assert_eq!(participant(&a, "Ann".to_string()).device_type, "web");
    let e = call_updated(&a, &Some(room(3, None)), vec![oid(2)]).unwrap();
    assert_eq!(
        fields(&e.data),
        format!("room_id={},participant_count=3,conference_status=in_progress", ROOM)
    );
    assert!(call_updated(&a, &None, vec![]).is_none());
    assert_eq!(fields(&call_join(oid(2))), format!("member_id={},joined=true", oid(2).to_hex()));
    assert_eq!(peer_left(&a, vec![oid(2)]).unwrap().kind, "media:peer_left");
    assert!(peer_left(&a, vec![]).is_none());
    assert_eq!(call_ended(&a, vec![oid(2)]).unwrap().kind, "room:call_ended");
    assert_eq!(room_closed(&a, vec![oid(2)]).unwrap().kind, "media:room_closed");
    assert_eq!(fields(&call_end(Ok(())).unwrap()), "ended=true");
    let m = CallMessage {
        id: Some(oid(4)),
        room_id: oid(9),
        author_id: oid(1),
        display_name: "Ann".to_string(),
        content: "hi".to_string(),
        created_at: DateTime { millis: 0 },
    };
    let e = create_call_message(&m, vec![oid(1), oid(2)]);
    assert_eq!(e.to, vec![oid(1), oid(2)]);
    assert_eq!(e.kind, "call:message:create");
    assert_eq!(e.data.content, "hi");
}

fn conference(status: ConferenceStatus) -> Conference {
    Conference {
        id: Some(oid(6)),
        tenant_id: oid(1),
        channel_id: None,
        subject: "s".to_string(),
        description: None,
        conference_type: ConferenceType::Instant,
        status,
        start_time: None,
        end_time: None,
        actual_start_time: None,
        actual_end_time: None,
        duration: None,
        timezone: None,
        recurrence: None,
        join_url: "/j".to_string(),
        meeting_code: "abc".to_string(),
        passcode: None,
        waiting_room: false,
        organizer_id: oid(2),
        co_organizer_ids: vec![],
        settings: ConferenceSettings::default(),
        participant_count: 0,
        peak_participant_count: 0,
        created_at: DateTime { millis: 0 },
        updated_at: DateTime { millis: 0 },
    }
}

#[test]
fn only_participants_chat_and_only_during_a_conference() {
    let a = conference_request(TENANT, ROOM, oid(1)).unwrap().grant(Ok(true)).unwrap();
    assert!(chat_list(&a, &vec![oid(1)]).is_ok());
    assert_eq!(
        answer(chat_list(&a, &vec![oid(2)]).unwrap_err()),
        (403, "forbidden".to_string(), "Not a conference participant".to_string())
    );
    assert!(chat_open(&conference(ConferenceStatus::InProgress)).is_ok());
    assert_eq!(
        answer(chat_open(&conference(ConferenceStatus::Scheduled)).unwrap_err()),
        (
            400,
            "bad_request".to_string(),
            "Chat is only available during an active conference".to_string()
        )
    );
    let m = ConferenceChatMessage {
        id: Some(oid(4)),
        conference_id: oid(6),
        author_id: oid(1),
        display_name: "Ann".to_string(),
        content: "hi".to_string(),
        created_at: DateTime { millis: 0 },
    };
    let e = chat_create(&a, &m, &vec![oid(1), oid(2)]);
    assert_eq!(e.to, vec![oid(2)]);
    assert_eq!(e.kind, "conference:message:create");
    let r = roomler::api::conference::to_response(&conference(ConferenceStatus::InProgress));
    assert_eq!((r.status.as_str(), r.conference_type.as_str()), ("InProgress", "Instant"));
    assert_eq!(r.organizer_id, oid(2).to_hex());
}
