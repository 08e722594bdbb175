//! Smaller things that answers hold.
use vstd::prelude::*;
use crate::api::background_task::not_yours;
use crate::api::error::{ErrorKind, name_of};
use crate::api::extract::{no_token, token_in, token_of};
use crate::api::file::{FileResponse, RoomFile, no_file, no_room, shows, shows_named};
use crate::api::jobs::no_key;
use crate::api::message::{RoomMessage, authors_of};
use crate::api::posting::{NewMessage, alike_but_for_files, attaches};
use crate::api::room::{Room, deserted, or_empty};
use crate::api::router::has_wildcard;
use crate::api::wire::{FieldView, Paginated, entry, opt_text, said, same_place};
use crate::api::ws_handler::{
    MediaCall,
    MediaKind,
    kind_in,
    media_blame,
    media_error_data,
    producer_data,
};
use crate::api::ws_storage::{key_of, user_of};
use crate::json::json_string;
use crate::models::file::File;
use crate::models::message::MessageAttachment;
use crate::oid::{ObjectId, oid_hex, oid_value};
use crate::text::{opt_view, trim};

verus! {

/// A page that is shown is the page that was asked for: the same number, the
/// same size and the same totals.
pub proof fn pages_stay_where_they_are<T, U>(a: Paginated<T>, b: Paginated<U>)
    requires
        same_place(a, b),
    ensures
        a.page == b.page,
        a.per_page == b.per_page,
        a.total == b.total,
        a.total_pages == b.total_pages,
{
}

/// What is said of one thing holds that thing alone, under its name.
pub proof fn one_thing_is_said(name: Seq<char>, value: bool, text: Seq<char>)
    ensures
        said(name, value).len() == 1,
        said(name, value)[0] == (name, FieldView::Flag(value)),
        said(name, true) != said(name, false),
        opt_text(Some(text)) == FieldView::Text(text),
        opt_text(None) == FieldView::Null,
        media_error_data(text).len() == 1,
        media_error_data(text)[0] == ("message"@, FieldView::Text(text)),
{
    assert(said(name, true)[0] != said(name, false)[0]);
}

/// The authors of messages are listed once each, by their numbers, and exactly
/// those who wrote one of the messages.
pub proof fn authors_are_those_who_wrote(ids: Seq<ObjectId>, messages: Seq<RoomMessage>, k: int)
    requires
        authors_of(ids, messages),
    ensures
        ids.no_duplicates(),
        0 <= k < messages.len() ==> ids.contains(messages[k].author_id),
        forall|o: ObjectId| #[trigger]
            ids.contains(o) ==> exists|j: int|
                0 <= j < messages.len() && (#[trigger] messages[j]).author_id == o,
        forall|i: int, j: int|
            0 <= i < j < ids.len() ==> oid_value(#[trigger] ids[i]) < oid_value(#[trigger] ids[j]),
{
    if 0 <= k < messages.len() {
        assert(messages[k].author_id == messages[k].author_id);
        assert(crate::api::message::wrote_one(messages, messages[k].author_id));
    }
    assert forall|o: ObjectId| #[trigger] ids.contains(o) implies exists|j: int|
        0 <= j < messages.len() && (#[trigger] messages[j]).author_id == o by {
        assert(crate::api::message::wrote_one(messages, o));
    }
}

/// A file of a room shows the room's name where it is known, and is otherwise
/// shown as any file.
pub proof fn files_are_shown_with_their_room(
    r: FileResponse,
    m: RoomFile,
    names: Seq<(ObjectId, String)>,
)
    requires
        shows_named(r, m, names),
    ensures
        m.room_id is None ==> r.room_name is None,
        m.room_id matches Some(room) ==> (r.room_name is Some <==> entry(names, room) is Some),
        m.room_id matches Some(room) ==> (entry(names, room) matches Some(n) ==> opt_view(
            r.room_name,
        ) == Some(n@)),
        shows(FileResponse { room_name: None, ..r }, m),
{
}

/// A file that is attached is attached as it is: its id, its name, its type,
/// its size, its address and its first thumbnail; it hides nothing.
pub proof fn files_are_attached_as_they_are(a: MessageAttachment, f: File)
    requires
        attaches(a, f),
    ensures
        f.id == Some(a.file_id),
        a.filename == f.filename,
        a.content_type == f.content_type,
        a.size == f.size,
        a.url == f.url,
        a.thumbnail_url is Some <==> f.thumbnails@.len() > 0,
        f.thumbnails@.len() > 0 ==> a.thumbnail_url.unwrap()@ == f.thumbnails@[0].url@,
        !a.is_spoiler,
{
}

/// A message to which files are attached is otherwise the message that it was.
pub proof fn attaching_changes_nothing_else(a: NewMessage, b: NewMessage)
    requires
        alike_but_for_files(a, b),
    ensures
        a == (NewMessage { attachments: a.attachments, ..b }),
{
}

/// A room is deserted exactly where its call is under way and nobody is left.
pub proof fn deserted_rooms_have_a_call_and_nobody(room: Room)
    ensures
        deserted(room) ==> room.participant_count == 0,
        room.participant_count == 0 ==> (room.conference_status matches Some(s) ==> (deserted(
            room,
        ) <==> s@ == "in_progress"@)),
        room.conference_status is None ==> !deserted(room),
{
}

/// A text that is not there is empty.
pub proof fn what_is_not_there_is_empty(s: Option<String>)
    ensures
        s is None ==> or_empty(s).len() == 0,
        s matches Some(t) ==> or_empty(s) == t@,
{
}

/// Every origin is let in where one of those that are listed is a star.
pub proof fn stars_let_everyone_in(origins: Seq<Seq<char>>, origin: Seq<char>)
    ensures
        !has_wildcard(Seq::<Seq<char>>::empty()),
        has_wildcard(origins.push(origin)) <==> has_wildcard(origins) || origin == "*"@,
{
    let more = origins.push(origin);
    if has_wildcard(origins) {
        let i = choose|i: int| 0 <= i < origins.len() && #[trigger] origins[i] == "*"@;
        assert(more[i] == "*"@);
    }
    if origin == "*"@ {
        assert(more[origins.len() as int] == "*"@);
    }
    if has_wildcard(more) {
        let i = choose|i: int| 0 <= i < more.len() && #[trigger] more[i] == "*"@;
        if i < origins.len() {
            assert(origins[i] == "*"@);
        }
    }
}

/// The number under which a user's connections are held leads back to the
/// user.
pub proof fn numbers_lead_back_to_users(user: ObjectId, other: ObjectId)
    ensures
        user_of(key_of(user)) == user,
        key_of(user) == key_of(other) ==> user == other,
        key_of(user) < 0x1_0000_0000_0000_0000_0000_0000,
{
    lemma_number(user);
    lemma_number(other);
}

proof fn lemma_number(o: ObjectId)
    ensures
        user_of(key_of(o)) == o,
        key_of(o) < 0x1_0000_0000_0000_0000_0000_0000,
{
    let hi = o.hi as int;
    let lo = o.lo as int;
    let n = hi * 0x1_0000_0000_0000_0000 + lo;
    assert(n / 0x1_0000_0000_0000_0000 == hi && n % 0x1_0000_0000_0000_0000 == lo)
        by (nonlinear_arith)
        requires
            0 <= lo < 0x1_0000_0000_0000_0000,
            0 <= hi,
            n == hi * 0x1_0000_0000_0000_0000 + lo,
    ;
    assert(oid_value(o) as int == n);
}

/// What is said of a producer holds its id, its owner and what it sends, each
/// under its name.
pub proof fn producers_are_told_of(producer: Seq<char>, owner: ObjectId)
    ensures
        ({
            let d = producer_data(producer, owner, MediaKind::Audio);
            &&& d.len() == 3
            &&& d.contains(("producer_id"@, FieldView::Text(producer)))
            &&& d.contains(("user_id"@, FieldView::Text(oid_hex(owner))))
            &&& d.contains(("kind"@, FieldView::Text("audio"@)))
        }),
        ({
            let d = producer_data(producer, owner, MediaKind::Video);
            &&& d.len() == 3
            &&& d.contains(("producer_id"@, FieldView::Text(producer)))
            &&& d.contains(("user_id"@, FieldView::Text(oid_hex(owner))))
            &&& d.contains(("kind"@, FieldView::Text("video"@)))
        }),
{
    let a = producer_data(producer, owner, MediaKind::Audio);
    assert(a[0] == ("producer_id"@, FieldView::Text(producer)));
    assert(a[1] == ("user_id"@, FieldView::Text(oid_hex(owner))));
    assert(a[2] == ("kind"@, FieldView::Text("audio"@)));
    let v = producer_data(producer, owner, MediaKind::Video);
    assert(v[0] == ("producer_id"@, FieldView::Text(producer)));
    assert(v[1] == ("user_id"@, FieldView::Text(oid_hex(owner))));
    assert(v[2] == ("kind"@, FieldView::Text("video"@)));
}

/// The type of a message is the text of its last member of that name, and
/// nothing where there is none or it is no text.
pub proof fn types_are_read_from_their_member(
    list: Seq<(Seq<char>, Seq<char>)>,
    value: Seq<char>,
    name: Seq<char>,
)
    ensures
        kind_in(list.push(("type"@, value))) == (match json_string(value) {
            Some(s) => s,
            None => Seq::<char>::empty(),
        }),
        name != "type"@ ==> kind_in(list.push((name, value))) == kind_in(list),
        kind_in(Seq::<(Seq<char>, Seq<char>)>::empty()).len() == 0,
{
    crate::config::range_laws::the_later_member_counts(list, "type"@, value, name);
    crate::config::range_laws::the_later_member_counts(list, name, value, "type"@);
}

/// A token is read from the first cookie of that name, wherever it stands
/// among the others; white space around a cookie does not count.
pub proof fn tokens_are_found_among_cookies(
    others: Seq<Seq<char>>,
    cookie: Seq<char>,
    token: Seq<char>,
    rest: Seq<Seq<char>>,
)
    requires
        forall|i: int|
            0 <= i < others.len() ==> !"access_token="@.is_prefix_of(trim(#[trigger] others[i])),
        trim(cookie) == "access_token="@ + token,
    ensures
        token_in(others) is None,
        token_in(others.push(cookie) + rest) == Some(token),
    decreases others.len(),
{
    let all = others.push(cookie) + rest;
    let c = "access_token="@;
    if others.len() == 0 {
        assert(all[0] == cookie);
        assert((c + token).take(c.len() as int) =~= c);
        assert((c + token).skip(c.len() as int) =~= token);
    } else {
        assert(!c.is_prefix_of(trim(others[0])));
        assert(all[0] == others[0]);
        let fewer = others.drop_first();
        assert forall|i: int| 0 <= i < fewer.len() implies !c.is_prefix_of(
            trim(#[trigger] fewer[i]),
        ) by {
            assert(fewer[i] == others[i + 1]);
        }
        tokens_are_found_among_cookies(fewer, cookie, token, rest);
        assert(all.drop_first() =~= fewer.push(cookie) + rest);
    }
}

/// Without a header that bears a token the cookies count, and without either
/// there is no token.
pub proof fn without_a_header_cookies_count(
    authorization: Option<Seq<char>>,
    cookies: Option<Seq<char>>,
)
    requires
        authorization matches Some(a) ==> !"Bearer "@.is_prefix_of(a),
    ensures
        cookies is None ==> token_of(authorization, cookies) is None,
        cookies matches Some(c) ==> token_of(authorization, cookies) == token_in(
            crate::text::split(c, ';'),
        ),
{
}

/// The kinds of errors are told by their names.
pub proof fn errors_have_their_names(kind: ErrorKind)
    ensures
        kind == ErrorKind::NotFound ==> name_of(kind)@ == "not_found"@,
        kind == ErrorKind::BadRequest ==> name_of(kind)@ == "bad_request"@,
        kind == ErrorKind::Unauthorized ==> name_of(kind)@ == "unauthorized"@,
        kind == ErrorKind::Forbidden ==> name_of(kind)@ == "forbidden"@,
        kind == ErrorKind::Conflict ==> name_of(kind)@ == "conflict"@,
        kind == ErrorKind::Internal ==> name_of(kind)@ == "internal"@,
        kind == ErrorKind::Validation ==> name_of(kind)@ == "validation"@,
{
}

/// What is missing is named: to one without a token, in a form without a file
/// or a room, where a service has no key; and nobody gets the task of another.
pub proof fn what_is_missing_is_named(service: Seq<char>)
    ensures
        no_token() == (ErrorKind::Unauthorized, "No token provided"@),
        no_file() == (ErrorKind::BadRequest, "Missing 'file' field"@),
        no_room() == (ErrorKind::BadRequest, "Missing 'room_id' field"@),
        not_yours() == (ErrorKind::Forbidden, "Not your task"@),
        no_key(service) == (
            ErrorKind::BadRequest,
            "Document recognition not configured (missing "@ + service + " API key)"@,
        ),
{
}

/// A call for media that fails says which call it was.
pub proof fn failed_media_calls_are_named(call: MediaCall)
    ensures
        call == MediaCall::CreateTransports ==> media_blame(call)
            == "Failed to create transports: "@,
        call == MediaCall::ConnectTransport ==> media_blame(call) == "connect_transport failed: "@,
        call == MediaCall::Produce ==> media_blame(call) == "produce failed: "@,
        call == MediaCall::Consume ==> media_blame(call) == "consume failed: "@,
{
}

/// How long things last and how large they may be: a session's relays and an
/// invitation to enroll ten minutes, an upload as much as the smallest plan
/// stores, an export its first ten thousand messages.
pub proof fn limits_are_what_they_are()
    ensures
        crate::api::remote_control::ENROLLMENT_TTL_SECS == 10 * 60,
        crate::api::remote_control::TURN_TTL_SECS == 10 * 60,
        crate::api::router::UPLOAD_LIMIT == crate::models::tenant::plan_limits(
            crate::models::tenant::Plan::Free,
        ).storage_bytes,
        crate::api::router::RATE_BURST == 60 * crate::api::router::RATE_PER_SECOND,
        crate::api::router::RATE_PER_SECOND == 1,
        crate::api::jobs::EXPORT_PAGE == 1,
        crate::api::jobs::EXPORT_LIMIT == 10 * 1000,
        crate::api::auth::ACTIVATION_CODE_LEN == 7,
        crate::api::auth::MEMBER_ROLE@ == "member"@,
        crate::api::agent_release::RELEASES_PER_PAGE == 30,
        crate::api::file::DEFAULT_UPLOAD_DIR@ == "/tmp/roomler2-uploads"@,
        crate::startup::LEASE_MILLIS == 2 * 60 * 1000,
        crate::config::health::CLEAN_RUN_THRESHOLD_SECS == 5 * 60,
        crate::config::org_table::DEFAULT_SSH_PORT == 2222,
        crate::api::router::HEALTH_PATH@ == "/health"@,
        crate::api::router::WS_PATH@ == "/ws"@,
        crate::settings::ENV_PREFIX@ == "ROOMLER"@,
        crate::settings::ENV_SEPARATOR@ == "__"@,
        crate::config::org::PRIMARY_ORG_LABEL@ == "primary"@,
{
}

} // verus!
