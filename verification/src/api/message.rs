//! Messages of a room: posting, editing, pinning, reading.
use vstd::prelude::*;
use crate::api::error::{ApiError, ErrorKind, forbidden};
use crate::api::scope::{
    Admitted,
    Asked,
    all_but,
    but,
    holds,
    ids_in,
    item_asked,
    item_request,
    pair_asked,
    pair_request,
    parse_ids,
};
use crate::api::wire::{
    Body,
    Broadcast,
    FieldView,
    Paginated,
    display_name,
    hex_of,
    name_or_id,
    opt_hex,
    said,
    same_place,
    say,
};
use crate::models::message::{MessageAttachment, MessageType, ReactionSummary, ThreadMetadata};
use crate::oid::{DateTime, ObjectId, oid_hex, oid_value, time_text};
use crate::text::{opt_view, views};

verus! {

/// Whom a new message mentions.
#[derive(Debug)]
#[allow(missing_docs)]
pub struct MentionRequest {
    pub users: Vec<String>,
    pub everyone: bool,
    pub here: bool,
}

/// A message to post.
#[derive(Debug)]
#[allow(missing_docs)]
pub struct CreateMessageRequest {
    pub content: String,
    pub thread_id: Option<String>,
    pub referenced_message_id: Option<String>,
    pub nonce: Option<String>,
    pub mentions: Option<MentionRequest>,
    pub attachment_ids: Vec<String>,
}

/// The new content of a message.
#[derive(Debug)]
#[allow(missing_docs)]
pub struct UpdateMessageRequest {
    pub content: String,
}

/// Whether to pin or to unpin.
#[derive(Debug)]
#[allow(missing_docs)]
pub struct TogglePinRequest {
    pub pinned: bool,
}

/// The messages that were read.
#[derive(Debug)]
#[allow(missing_docs)]
pub struct MarkReadRequest {
    pub message_ids: Vec<String>,
}

/// A file attached to a message, for clients.
#[derive(Debug)]
#[allow(missing_docs)]
pub struct AttachmentResponse {
    pub file_id: String,
    pub filename: String,
    pub content_type: String,
    pub size: u64,
    pub url: String,
    pub thumbnail_url: Option<String>,
}

/// How often a message got a reaction, for clients.
#[derive(Debug)]
#[allow(missing_docs)]
pub struct ReactionSummaryResponse {
    pub emoji: String,
    pub count: u32,
}

/// A message, for clients.
#[derive(Debug)]
#[allow(missing_docs)]
pub struct MessageResponse {
    pub id: String,
    pub room_id: String,
    pub author_id: String,
    pub author_name: String,
    pub content: String,
    pub message_type: String,
    pub is_pinned: bool,
    pub is_edited: bool,
    pub is_thread_root: bool,
    pub thread_id: Option<String>,
    pub referenced_message_id: Option<String>,
    pub reaction_summary: Vec<ReactionSummaryResponse>,
    pub attachments: Vec<AttachmentResponse>,
    pub is_read: bool,
    pub reply_count: Option<u32>,
    pub last_reply_at: Option<String>,
    pub last_reply_user_id: Option<String>,
    pub created_at: String,
    pub updated_at: String,
}

/// A message of a room, as it is stored.
#[derive(Debug)]
#[allow(missing_docs)]
pub struct RoomMessage {
    pub id: Option<ObjectId>,
    pub room_id: ObjectId,
    pub thread_id: Option<ObjectId>,
    pub is_thread_root: bool,
    pub thread_metadata: Option<ThreadMetadata>,
    pub author_id: ObjectId,
    pub content: String,
    pub message_type: MessageType,
    pub attachments: Vec<MessageAttachment>,
    pub reaction_summary: Vec<ReactionSummary>,
    pub referenced_message_id: Option<ObjectId>,
    pub readby: Vec<ObjectId>,
    pub is_pinned: bool,
    pub is_edited: bool,
    pub created_at: DateTime,
    pub updated_at: DateTime,
}

/// A request on one message of a room.
pub fn message_request(tenant_id: &str, room_id: &str, message_id: &str, user: ObjectId) -> (r:
    Result<Asked<(ObjectId, ObjectId)>, ApiError>)
    ensures
        match r {
            Ok(a) => pair_asked(
                tenant_id@,
                room_id@,
                "room_id"@,
                message_id@,
                "message_id"@,
                user,
            ) == Ok::<_, (ErrorKind, Seq<char>)>(a),
            Err(e) => pair_asked(
                tenant_id@,
                room_id@,
                "room_id"@,
                message_id@,
                "message_id"@,
                user,
            ) == Err::<Asked<(ObjectId, ObjectId)>, _>(e@),
        },
{
    pair_request(tenant_id, room_id, "room_id", message_id, "message_id", user)
}

/// A request on the thread below a message; the room goes unread.
pub fn thread_request(tenant_id: &str, message_id: &str, user: ObjectId) -> (r: Result<
    Asked<ObjectId>,
    ApiError,
>)
    ensures
        match r {
            Ok(a) => item_asked(tenant_id@, message_id@, "message_id"@, user) == Ok::<
                _,
                (ErrorKind, Seq<char>),
            >(a),
            Err(e) => item_asked(tenant_id@, message_id@, "message_id"@, user) == Err::<
                Asked<ObjectId>,
                _,
            >(e@),
        },
{
    item_request(tenant_id, message_id, "message_id", user)
}

/// One of the messages is by `o`.
pub open spec fn wrote_one(messages: Seq<RoomMessage>, o: ObjectId) -> bool {
    exists|k: int| 0 <= k < messages.len() && (#[trigger] messages[k]).author_id == o
}

/// The authors of messages are in the list, once each and in order of their
/// ids, and nobody else is.
pub open spec fn authors_of(ids: Seq<ObjectId>, messages: Seq<RoomMessage>) -> bool {
    &&& forall|i: int, j: int|
        0 <= i < j < ids.len() ==> oid_value(#[trigger] ids[i]) < oid_value(#[trigger] ids[j])
    &&& forall|o: ObjectId| #[trigger] ids.contains(o) <==> wrote_one(messages, o)
}

/// Where an id belongs in an ascending list.
fn place(ids: &Vec<ObjectId>, id: ObjectId) -> (r: usize)
    requires
        forall|i: int, j: int|
            0 <= i < j < ids@.len() ==> oid_value(#[trigger] ids@[i]) < oid_value(
                #[trigger] ids@[j],
            ),
    ensures
        r <= ids@.len(),
        forall|i: int| 0 <= i < r ==> oid_value(#[trigger] ids@[i]) < oid_value(id),
        forall|i: int| r <= i < ids@.len() ==> oid_value(#[trigger] ids@[i]) >= oid_value(id),
{
    let mut k: usize = 0;
    while k < ids.len() && ids[k].before(id)
        invariant
            k <= ids@.len(),
            forall|i: int| 0 <= i < k ==> oid_value(#[trigger] ids@[i]) < oid_value(id),
        decreases ids@.len() - k,
    {
        k = k + 1;
    }
    k
}

/// The authors of messages, once each and in order of their ids.
pub fn collect_author_ids(messages: &Vec<RoomMessage>) -> (r: Vec<ObjectId>)
    ensures
        authors_of(r@, messages@),
{
    let mut ids: Vec<ObjectId> = Vec::new();
    let mut n: usize = 0;
    while n < messages.len()
        invariant
            n <= messages@.len(),
            authors_of(ids@, messages@.take(n as int)),
        decreases messages@.len() - n,
    {
        let id: ObjectId = messages[n].author_id;
        let k: usize = place(&ids, id);
        let ghost was = ids@;
        let ghost seen = messages@.take(n as int);
        let ghost now = messages@.take(n + 1);
        proof {
            assert forall|o: ObjectId|
                #![trigger wrote_one(now, o)]
                wrote_one(now, o) <==> (o == id || wrote_one(seen, o)) by {
                if wrote_one(seen, o) {
                    let j = choose|j: int|
                        0 <= j < seen.len() && (#[trigger] seen[j]).author_id == o;
                    assert(now[j].author_id == o);
                }
                if wrote_one(now, o) {
                    let j = choose|j: int| 0 <= j < now.len() && (#[trigger] now[j]).author_id == o;
                    if j < n {
                        assert(seen[j].author_id == o);
                    }
                }
                assert(now[n as int].author_id == id);
            }
        }
        if k == ids.len() || ids[k] != id {
            ids.insert(k, id);
            proof {
                lemma_inserted(was, k as int, id);
                assert(ids@ == was.insert(k as int, id));
                assert forall|i: int, j: int| 0 <= i < j < ids@.len() implies oid_value(
                    #[trigger] ids@[i],
                ) < oid_value(#[trigger] ids@[j]) by {
                    if k < was.len() && (i == k || j == k) {
                        lemma_value_tells(was[k as int], id);
                    }
                    if j > k && i != k {
                        let a = if i < k {
                            i
                        } else {
                            i - 1
                        };
                        assert(was[a] == ids@[i]);
                        assert(was[j - 1] == ids@[j]);
                    }
                    if i == k {
                        assert(was[j - 1] == ids@[j]);
                        if j - 1 > k {
                            assert(oid_value(was[k as int]) < oid_value(was[j - 1]));
                        }
                    }
                    if j <= k {
                        assert(was[i] == ids@[i]);
                        if j < k {
                            assert(was[j] == ids@[j]);
                        }
                    }
                }
            }
        } else {
            proof {
                assert(ids@[k as int] == id);
                assert(ids@.contains(id));
            }
        }
        n = n + 1;
    }
    proof {
        assert(messages@.take(messages@.len() as int) =~= messages@);
    }
    ids
}

proof fn lemma_value_tells(a: ObjectId, b: ObjectId)
    ensures
        oid_value(a) == oid_value(b) ==> a == b,
{
}

proof fn lemma_inserted(s: Seq<ObjectId>, k: int, id: ObjectId)
    requires
        0 <= k <= s.len(),
    ensures
        forall|o: ObjectId| #[trigger] s.insert(k, id).contains(o) <==> s.contains(o) || o == id,
{
    let t = s.insert(k, id);
    assert forall|o: ObjectId| #[trigger] t.contains(o) <==> s.contains(o) || o == id by {
        assert(t[k] == id);
        if s.contains(o) {
            let i = choose|i: int| 0 <= i < s.len() && s[i] == o;
            if i < k {
                assert(t[i] == o);
            } else {
                assert(t[i + 1] == o);
            }
        }
        if t.contains(o) {
            let i = choose|i: int| 0 <= i < t.len() && t[i] == o;
            if i < k {
                assert(s[i] == o);
            } else if i > k {
                assert(s[i - 1] == o);
            }
        }
    }
}

/// A message as a client sees it.
pub open spec fn shows(
    r: MessageResponse,
    m: RoomMessage,
    names: Seq<(ObjectId, String)>,
    viewer: Option<ObjectId>,
) -> bool {
    &&& m.id matches Some(id) && r.id@ == oid_hex(id)
    &&& r.room_id@ == oid_hex(m.room_id)
    &&& r.author_id@ == oid_hex(m.author_id)
    &&& r.author_name@ == name_or_id(names, m.author_id)
    &&& r.content@ == m.content@
    &&& r.message_type@ == m.message_type.spec_label()@
    &&& r.is_pinned == m.is_pinned
    &&& r.is_edited == m.is_edited
    &&& r.is_thread_root == m.is_thread_root
    &&& opt_view(r.thread_id) == opt_hex(m.thread_id)
    &&& opt_view(r.referenced_message_id) == opt_hex(m.referenced_message_id)
    &&& shows_reactions(r.reaction_summary@, m.reaction_summary@)
    &&& shows_attachments(r.attachments@, m.attachments@)
    &&& r.is_read == (viewer matches Some(v) && m.readby@.contains(v))
    &&& shows_thread(r, m.thread_metadata)
    &&& r.created_at@ == time_text(m.created_at)
    &&& r.updated_at@ == time_text(m.updated_at)
}

/// What a client sees of the thread below a message.
pub open spec fn shows_thread(r: MessageResponse, t: Option<ThreadMetadata>) -> bool {
    match t {
        Some(t) => {
            &&& r.reply_count == Some(t.reply_count)
            &&& opt_view(r.last_reply_at) == opt_time(t.last_reply_at)
            &&& opt_view(r.last_reply_user_id) == opt_hex(t.last_reply_user_id)
        },
        None => r.reply_count is None && r.last_reply_at is None && r.last_reply_user_id is None,
    }
}

/// The text of an optional time.
pub open spec fn opt_time(t: Option<DateTime>) -> Option<Seq<char>> {
    match t {
        Some(t) => Some(time_text(t)),
        None => None,
    }
}

/// The reactions to a message, one for one.
pub open spec fn shows_reactions(
    r: Seq<ReactionSummaryResponse>,
    m: Seq<ReactionSummary>,
) -> bool {
    &&& r.len() == m.len()
    &&& forall|i: int|
        0 <= i < r.len() ==> (#[trigger] r[i]).emoji@ == m[i].emoji@ && r[i].count == m[i].count
}

/// An attachment as a client sees it.
pub open spec fn shows_attachment(r: AttachmentResponse, a: MessageAttachment) -> bool {
    &&& r.file_id@ == oid_hex(a.file_id)
    &&& r.filename@ == a.filename@
    &&& r.content_type@ == a.content_type@
    &&& r.size == a.size
    &&& r.url@ == a.url@
    &&& opt_view(r.thumbnail_url) == opt_view(a.thumbnail_url)
}

/// The attachments of a message, one for one.
pub open spec fn shows_attachments(r: Seq<AttachmentResponse>, m: Seq<MessageAttachment>) -> bool {
    &&& r.len() == m.len()
    &&& forall|i: int| 0 <= i < r.len() ==> shows_attachment(#[trigger] r[i], m[i])
}

fn reactions(list: &Vec<ReactionSummary>) -> (r: Vec<ReactionSummaryResponse>)
    ensures
        shows_reactions(r@, list@),
{
    let mut out: Vec<ReactionSummaryResponse> = Vec::new();
    let mut i: usize = 0;
    while i < list.len()
        invariant
            i <= list@.len(),
            shows_reactions(out@, list@.take(i as int)),
        decreases list@.len() - i,
    {
        out.push(
            ReactionSummaryResponse { emoji: list[i].emoji.clone(), count: list[i].count },
        );
        i = i + 1;
    }
    out
}

fn attachments(list: &Vec<MessageAttachment>) -> (r: Vec<AttachmentResponse>)
    ensures
        shows_attachments(r@, list@),
{
    let mut out: Vec<AttachmentResponse> = Vec::new();
    let mut i: usize = 0;
    while i < list.len()
        invariant
            i <= list@.len(),
            shows_attachments(out@, list@.take(i as int)),
        decreases list@.len() - i,
    {
        let a: &MessageAttachment = &list[i];
        let shown = AttachmentResponse {
            file_id: a.file_id.to_hex(),
            filename: a.filename.clone(),
            content_type: a.content_type.clone(),
            size: a.size,
            url: a.url.clone(),
            thumbnail_url: crate::text::copy_opt(&a.thumbnail_url),
        };
        out.push(shown);
        i = i + 1;
    }
    out
}

/// The text of an optional time.
pub fn time_of(t: Option<DateTime>) -> (r: Option<String>)
    ensures
        opt_view(r) == opt_time(t),
{
    match t {
        Some(t) => Some(t.to_text()),
        None => None,
    }
}

/// A message as `viewer` sees it.
pub fn to_response(
    m: &RoomMessage,
    names: &Vec<(ObjectId, String)>,
    viewer: Option<ObjectId>,
) -> (r: MessageResponse)
    requires
        m.id is Some,
    ensures
        shows(r, *m, names@, viewer),
{
    let id: ObjectId = m.id.unwrap();
    let is_read: bool = match viewer {
        Some(v) => holds(&m.readby, v),
        None => false,
    };
    let (reply_count, last_reply_at, last_reply_user_id): (
        Option<u32>,
        Option<String>,
        Option<String>,
    ) = match &m.thread_metadata {
        Some(t) => (Some(t.reply_count), time_of(t.last_reply_at), hex_of(t.last_reply_user_id)),
        None => (None, None, None),
    };
    MessageResponse {
        id: id.to_hex(),
        room_id: m.room_id.to_hex(),
        author_id: m.author_id.to_hex(),
        author_name: display_name(names, m.author_id),
        content: m.content.clone(),
        message_type: m.message_type.label().to_owned(),
        is_pinned: m.is_pinned,
        is_edited: m.is_edited,
        is_thread_root: m.is_thread_root,
        thread_id: hex_of(m.thread_id),
        referenced_message_id: hex_of(m.referenced_message_id),
        reaction_summary: reactions(&m.reaction_summary),
        attachments: attachments(&m.attachments),
        is_read,
        reply_count,
        last_reply_at,
        last_reply_user_id,
        created_at: m.created_at.to_text(),
        updated_at: m.updated_at.to_text(),
    }
}

/// Every stored message has its id.
pub open spec fn identified(list: Seq<RoomMessage>) -> bool {
    forall|i: int| 0 <= i < list.len() ==> (#[trigger] list[i]).id is Some
}

/// The messages of a list as `viewer` sees them, one for one.
pub open spec fn shows_all(
    r: Seq<MessageResponse>,
    list: Seq<RoomMessage>,
    names: Seq<(ObjectId, String)>,
    viewer: Option<ObjectId>,
) -> bool {
    &&& r.len() == list.len()
    &&& forall|i: int| 0 <= i < r.len() ==> shows(#[trigger] r[i], list[i], names, viewer)
}

/// The messages of a list as `viewer` sees them.
pub fn responses(
    list: &Vec<RoomMessage>,
    names: &Vec<(ObjectId, String)>,
    viewer: Option<ObjectId>,
) -> (r: Vec<MessageResponse>)
    requires
        identified(list@),
    ensures
        shows_all(r@, list@, names@, viewer),
{
    let mut out: Vec<MessageResponse> = Vec::new();
    let mut i: usize = 0;
    while i < list.len()
        invariant
            i <= list@.len(),
            identified(list@),
            shows_all(out@, list@.take(i as int), names@, viewer),
        decreases list@.len() - i,
    {
        let shown: MessageResponse = to_response(&list[i], names, viewer);
        out.push(shown);
        i = i + 1;
    }
    out
}

/// One page of a room's messages, or of the replies in a thread, as the one
/// who asks sees them.
pub fn list(
    asked: &Admitted<ObjectId>,
    page: Paginated<RoomMessage>,
    names: &Vec<(ObjectId, String)>,
) -> (r: Paginated<MessageResponse>)
    requires
        identified(page.items@),
    ensures
        same_place(r, page),
        shows_all(r.items@, page.items@, names@, Some(asked.request().user)),
{
    Paginated {
        items: responses(&page.items, names, Some(asked.user())),
        total: page.total,
        page: page.page,
        per_page: page.per_page,
        total_pages: page.total_pages,
    }
}

/// The pinned messages of a room as the one who asks sees them.
pub fn pinned(
    asked: &Admitted<ObjectId>,
    messages: &Vec<RoomMessage>,
    names: &Vec<(ObjectId, String)>,
) -> (r: Vec<MessageResponse>)
    requires
        identified(messages@),
    ensures
        shows_all(r@, messages@, names@, Some(asked.request().user)),
{
    responses(messages, names, Some(asked.user()))
}

/// Who hears of an edited message, and what: everyone of the room but the one
/// who edited it, who gets the event's data as the answer.
pub fn updated(
    asked: &Admitted<(ObjectId, ObjectId)>,
    message: &RoomMessage,
    names: &Vec<(ObjectId, String)>,
    members: &Vec<ObjectId>,
) -> (r: Broadcast<MessageResponse>)
    requires
        message.id is Some,
    ensures
        r.to@ == but(members@, asked.request().user),
        r.kind@ == "message:update"@,
        shows(r.data, *message, names@, Some(asked.request().user)),
{
    Broadcast {
        to: all_but(members, asked.user()),
        kind: "message:update",
        data: to_response(message, names, Some(asked.user())),
    }
}

/// Whether the one who asks may delete a message: only its author may.
pub fn delete(asked: &Admitted<(ObjectId, ObjectId)>, message: &RoomMessage) -> (r: Result<
    (),
    ApiError,
>)
    ensures
        match r {
            Ok(()) => message.author_id == asked.request().user,
            Err(e) => message.author_id != asked.request().user && e@ == (
                ErrorKind::Forbidden,
                "Only the author can delete this message"@,
            ),
        },
{
    if message.author_id != asked.user() {
        Err(forbidden("Only the author can delete this message"))
    } else {
        Ok(())
    }
}

/// Who hears of a deleted message, and what.
pub fn deleted(
    asked: &Admitted<(ObjectId, ObjectId)>,
    message_id: &str,
    room_id: &str,
    members: &Vec<ObjectId>,
) -> (r: (Broadcast<Body>, Body))
    ensures
        r.0.to@ == but(members@, asked.request().user),
        r.0.kind@ == "message:delete"@,
        r.0.data@ == seq![
            ("id"@, FieldView::Text(message_id@)),
            ("room_id"@, FieldView::Text(room_id@)),
        ],
        r.1@ == said("deleted"@, true),
{
    (
        Broadcast {
            to: all_but(members, asked.user()),
            kind: "message:delete",
            data: Body::new().text("id", message_id).text("room_id", room_id),
        },
        say("deleted", true),
    )
}

/// Who hears that a message was pinned or unpinned, and what: everyone of the
/// room.
pub fn toggle_pin(
    body: &TogglePinRequest,
    message_id: &str,
    room_id: &str,
    members: Vec<ObjectId>,
) -> (r: (Broadcast<Body>, Body))
    ensures
        r.0.to == members,
        r.0.kind@ == (if body.pinned {
            "message:pin"@
        } else {
            "message:unpin"@
        }),
        r.0.data@ == seq![
            ("message_id"@, FieldView::Text(message_id@)),
            ("room_id"@, FieldView::Text(room_id@)),
            ("pinned"@, FieldView::Flag(body.pinned)),
        ],
        r.1@ == said("pinned"@, body.pinned),
{
    (
        Broadcast {
            to: members,
            kind: if body.pinned {
                "message:pin"
            } else {
                "message:unpin"
            },
            data: Body::new().text("message_id", message_id).text("room_id", room_id).flag(
                "pinned",
                body.pinned,
            ),
        },
        say("pinned", body.pinned),
    )
}

/// The messages to mark as read: those of the request whose ids are ids.
pub fn mark_read(body: &MarkReadRequest) -> (r: Vec<ObjectId>)
    ensures
        r@ == ids_in(views(body.message_ids@)),
{
    parse_ids(&body.message_ids)
}

/// The answer that says how many messages were marked.
pub fn marked(count: u64) -> (r: Body)
    ensures
        r@ == seq![("marked"@, FieldView::Number(count as nat))],
{
    Body::new().number("marked", count)
}

/// The answer that says how many messages are unread.
pub fn unread_count(count: u64) -> (r: Body)
    ensures
        r@ == seq![("count"@, FieldView::Number(count as nat))],
{
    Body::new().number("count", count)
}

/// What a client sees of a message is its own: the ids read back, and every
/// other part is the part of that name.
pub proof fn messages_show_their_own(
    r: MessageResponse,
    m: RoomMessage,
    names: Seq<(ObjectId, String)>,
    viewer: Option<ObjectId>,
)
    requires
        shows(r, m, names, viewer),
    ensures
        crate::oid::oid_parsed(r.id@) == m.id,
        crate::oid::oid_parsed(r.room_id@) == Some(m.room_id),
        crate::oid::oid_parsed(r.author_id@) == Some(m.author_id),
        crate::api::wire::entry(names, m.author_id) is None ==> crate::oid::oid_parsed(
            r.author_name@,
        ) == Some(
            m.author_id,
        ),
        crate::api::wire::entry(names, m.author_id) matches Some(n) ==> r.author_name@ == n@,
        r.content@ == m.content@,
        r.message_type@ == m.message_type.spec_label()@,
        r.is_pinned == m.is_pinned,
        r.is_edited == m.is_edited,
        r.is_thread_root == m.is_thread_root,
        r.thread_id is Some <==> m.thread_id is Some,
        r.thread_id matches Some(s) ==> crate::oid::oid_parsed(s@) == m.thread_id,
        r.referenced_message_id is Some <==> m.referenced_message_id is Some,
        r.referenced_message_id matches Some(s) ==> crate::oid::oid_parsed(s@) == m.referenced_message_id,
        r.reaction_summary@.len() == m.reaction_summary@.len(),
        forall|i: int|
            0 <= i < r.reaction_summary@.len() ==> (#[trigger] r.reaction_summary@[i]).emoji@
                == m.reaction_summary@[i].emoji@ && r.reaction_summary@[i].count
                == m.reaction_summary@[i].count,
        r.attachments@.len() == m.attachments@.len(),
        forall|i: int|
            0 <= i < r.attachments@.len() ==> shows_attachment(
                #[trigger] r.attachments@[i],
                m.attachments@[i],
            ),
        viewer is None ==> !r.is_read,
        viewer matches Some(v) ==> (r.is_read <==> m.readby@.contains(v)),
        shows_thread(r, m.thread_metadata),
        r.created_at@ == time_text(m.created_at),
        r.updated_at@ == time_text(m.updated_at),
{
    crate::oid::hex_round_trip(m.id.unwrap());
    crate::oid::hex_round_trip(m.room_id);
    crate::oid::hex_round_trip(m.author_id);
    crate::oid::hex_round_trip(m.thread_id.unwrap());
    crate::oid::hex_round_trip(m.referenced_message_id.unwrap());
}

/// What a client sees of a thread is its own.
pub proof fn threads_show_their_own(r: MessageResponse, t: Option<ThreadMetadata>)
    requires
        shows_thread(r, t),
    ensures
        t is None ==> r.reply_count is None && r.last_reply_at is None
            && r.last_reply_user_id is None,
        t matches Some(t) ==> {
            &&& r.reply_count == Some(t.reply_count)
            &&& r.last_reply_at is Some <==> t.last_reply_at is Some
            &&& r.last_reply_user_id is Some <==> t.last_reply_user_id is Some
            &&& r.last_reply_at matches Some(s) ==> s@ == time_text(t.last_reply_at.unwrap())
            &&& r.last_reply_user_id matches Some(s) ==> crate::oid::oid_parsed(s@)
                == t.last_reply_user_id
        },
{
    crate::oid::hex_round_trip(t.unwrap().last_reply_user_id.unwrap());
}

/// What a client sees of an attachment is its own.
pub proof fn attachments_show_their_own(r: AttachmentResponse, a: MessageAttachment)
    requires
        shows_attachment(r, a),
    ensures
        crate::oid::oid_parsed(r.file_id@) == Some(a.file_id),
        r.filename@ == a.filename@,
        r.content_type@ == a.content_type@,
        r.size == a.size,
        r.url@ == a.url@,
        r.thumbnail_url is Some <==> a.thumbnail_url is Some,
        r.thumbnail_url matches Some(s) ==> s@ == a.thumbnail_url.unwrap()@,
{
    crate::oid::hex_round_trip(a.file_id);
}

/// Of a list everything is shown, one for one and in its order.
pub proof fn messages_are_shown_in_order(
    r: Seq<MessageResponse>,
    list: Seq<RoomMessage>,
    names: Seq<(ObjectId, String)>,
    viewer: Option<ObjectId>,
    i: int,
)
    requires
        shows_all(r, list, names, viewer),
    ensures
        r.len() == list.len(),
        0 <= i < r.len() ==> shows(r[i], list[i], names, viewer),
        0 <= i < r.len() ==> crate::oid::oid_parsed(r[i].id@) == list[i].id,
{
    crate::oid::hex_round_trip(list[i].id.unwrap());
    if 0 <= i < r.len() {
        assert(shows(r[i], list[i], names, viewer));
    }
}

} // verus!
