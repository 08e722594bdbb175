//! What lookups, readings of ids and checks on who asks come to, whatever is
//! looked up.
use vstd::prelude::*;
use crate::api::error::{AuthError, DaoError, ErrorKind, auth_answer, dao_answer, status_of};
use crate::api::posting::{complaint, mentions_of, told};
use crate::api::message::{CreateMessageRequest, MentionRequest};
use crate::api::room::{RoomMember, users_of};
use crate::api::scope::{
    Asked,
    id_in,
    ids_in,
    item_asked,
    opt_id_in,
    other_than,
    pair_asked,
    tenant_asked,
};
use crate::api::stripe::manages;
use crate::api::wire::{entry, name_or_id};
use crate::ip::{hex_digit, hex_value};
use crate::models::message::Mentions;
use crate::models::tenant::Tenant;
use crate::oid::{ObjectId, hex_round_trip, oid_hex, oid_parsed};
use crate::text::views;

verus! {

/// A list that is added to gives for the added id what was added last, and for
/// every other id what it gave before; an empty list gives nothing.
pub proof fn the_last_entry_counts<V>(list: Seq<(ObjectId, V)>, id: ObjectId, v: V, other: ObjectId)
    ensures
        entry(Seq::<(ObjectId, V)>::empty(), id) is None,
        entry(list.push((id, v)), id) == Some(v),
        other != id ==> entry(list.push((id, v)), other) == entry(list, other),
{
    assert(list.push((id, v)).drop_last() =~= list);
}

/// What a list gives for an id stands in the list beside that id, and a list
/// that holds the id gives something.
pub proof fn entries_are_found<V>(list: Seq<(ObjectId, V)>, id: ObjectId)
    ensures
        entry(list, id) matches Some(v) ==> list.contains((id, v)),
        entry(list, id) is None ==> forall|i: int|
            0 <= i < list.len() ==> (#[trigger] list[i]).0 != id,
    decreases list.len(),
{
    if list.len() > 0 && list.last().0 != id {
        let front = list.drop_last();
        entries_are_found(front, id);
        if let Some(v) = entry(list, id) {
            let k = choose|k: int| 0 <= k < front.len() && front[k] == (id, v);
            assert(list[k] == (id, v));
        } else {
            assert forall|i: int| 0 <= i < list.len() implies (#[trigger] list[i]).0 != id by {
                if i < front.len() {
                    assert(front[i].0 != id);
                }
            }
        }
    } else if list.len() > 0 {
        assert(list[list.len() - 1] == (id, list.last().1));
    }
}

/// One who has a name is called by it, and one who has none by an id that
/// reads back.
pub proof fn the_nameless_go_by_their_id(names: Seq<(ObjectId, String)>, id: ObjectId, name: String)
    ensures
        name_or_id(names.push((id, name)), id) == name@,
        entry(names, id) is None ==> oid_parsed(name_or_id(names, id)) == Some(id),
        name_or_id(Seq::<(ObjectId, String)>::empty(), id) == oid_hex(id),
{
    the_last_entry_counts(names, id, name, id);
    hex_round_trip(id);
}

proof fn lemma_hex_value(s: Seq<char>)
    ensures
        hex_value(s) is Some <==> forall|i: int|
            0 <= i < s.len() ==> hex_digit(#[trigger] s[i]) is Some,
    decreases s.len(),
{
    if s.len() > 0 {
        let front = s.drop_last();
        lemma_hex_value(front);
        if hex_value(s) is Some {
            assert forall|i: int| 0 <= i < s.len() implies hex_digit(#[trigger] s[i]) is Some by {
                if i < front.len() {
                    assert(front[i] == s[i]);
                }
            }
        }
        if forall|i: int| 0 <= i < s.len() ==> hex_digit(#[trigger] s[i]) is Some {
            assert forall|i: int| 0 <= i < front.len() implies hex_digit(
                #[trigger] front[i],
            ) is Some by {
                assert(front[i] == s[i]);
            }
            assert(s.last() == s[s.len() - 1]);
        }
    }
}

/// An id is read from exactly the texts of twenty-four hexadecimal digits.
pub proof fn ids_are_hexadecimal(s: Seq<char>)
    ensures
        oid_parsed(s) is Some <==> s.len() == 24 && forall|i: int|
            0 <= i < s.len() ==> {
                let c = #[trigger] s[i];
                '0' <= c <= '9' || 'a' <= c <= 'f' || 'A' <= c <= 'F'
            },
{
    lemma_hex_value(s);
    if forall|i: int|
        0 <= i < s.len() ==> {
            let c = #[trigger] s[i];
            '0' <= c <= '9' || 'a' <= c <= 'f' || 'A' <= c <= 'F'
        } {
        assert forall|i: int| 0 <= i < s.len() implies hex_digit(#[trigger] s[i]) is Some by {}
    }
    if forall|i: int| 0 <= i < s.len() ==> hex_digit(#[trigger] s[i]) is Some {
        assert forall|i: int| 0 <= i < s.len() implies {
            let c = #[trigger] s[i];
            '0' <= c <= '9' || 'a' <= c <= 'f' || 'A' <= c <= 'F'
        } by {
            assert(hex_digit(s[i]) is Some);
        }
    }
}

/// A part of a request that should be an id is that id, or the request is a
/// bad one that names the part.
pub proof fn parts_are_read_or_named(id: ObjectId, text: Seq<char>, name: Seq<char>)
    ensures
        id_in(oid_hex(id), name) == Ok::<ObjectId, (ErrorKind, Seq<char>)>(id),
        oid_parsed(text) is None ==> id_in(text, name) == Err::<ObjectId, (ErrorKind, Seq<char>)>(
            (ErrorKind::BadRequest, "Invalid "@ + name),
        ),
        opt_id_in(None, name) == Ok::<Option<ObjectId>, (ErrorKind, Seq<char>)>(None),
        opt_id_in(Some(oid_hex(id)), name) == Ok::<Option<ObjectId>, (ErrorKind, Seq<char>)>(
            Some(id),
        ),
        oid_parsed(text) is None ==> opt_id_in(Some(text), name) == Err::<
            Option<ObjectId>,
            (ErrorKind, Seq<char>),
        >((ErrorKind::BadRequest, "Invalid "@ + name)),
{
    hex_round_trip(id);
}

/// A request speaks of the tenant, the item and the user that it was made
/// with, each in its own place.
pub proof fn requests_ask_for_what_they_name(
    tenant: ObjectId,
    outer: ObjectId,
    inner: ObjectId,
    user: ObjectId,
    outer_name: Seq<char>,
    inner_name: Seq<char>,
)
    ensures
        tenant_asked(oid_hex(tenant), user) == Ok::<Asked<()>, (ErrorKind, Seq<char>)>(
            Asked { tenant, user, part: () },
        ),
        item_asked(oid_hex(tenant), oid_hex(outer), outer_name, user) == Ok::<
            Asked<ObjectId>,
            (ErrorKind, Seq<char>),
        >(Asked { tenant, user, part: outer }),
        pair_asked(
            oid_hex(tenant),
            oid_hex(outer),
            outer_name,
            oid_hex(inner),
            inner_name,
            user,
        ) == Ok::<Asked<(ObjectId, ObjectId)>, (ErrorKind, Seq<char>)>(
            Asked { tenant, user, part: (outer, inner) },
        ),
{
    hex_round_trip(tenant);
    hex_round_trip(outer);
    hex_round_trip(inner);
}

/// A request is complained of by its first part that is no id: the tenant,
/// then the item, then what belongs to the item.
pub proof fn the_first_bad_part_is_named(
    tenant: Seq<char>,
    outer: Seq<char>,
    outer_name: Seq<char>,
    inner: Seq<char>,
    inner_name: Seq<char>,
    user: ObjectId,
)
    ensures
        item_asked(tenant, outer, outer_name, user) is Ok <==> oid_parsed(tenant) is Some
            && oid_parsed(outer) is Some,
        pair_asked(tenant, outer, outer_name, inner, inner_name, user) is Ok <==> oid_parsed(
            tenant,
        ) is Some && oid_parsed(outer) is Some && oid_parsed(inner) is Some,
        oid_parsed(tenant) is None ==> pair_asked(
            tenant,
            outer,
            outer_name,
            inner,
            inner_name,
            user,
        )->Err_0 == (ErrorKind::BadRequest, "Invalid "@ + "tenant_id"@),
        oid_parsed(tenant) is Some && oid_parsed(outer) is None ==> pair_asked(
            tenant,
            outer,
            outer_name,
            inner,
            inner_name,
            user,
        )->Err_0 == (ErrorKind::BadRequest, "Invalid "@ + outer_name),
        oid_parsed(tenant) is Some && oid_parsed(outer) is Some && oid_parsed(inner) is None
            ==> pair_asked(tenant, outer, outer_name, inner, inner_name, user)->Err_0 == (
            ErrorKind::BadRequest,
            "Invalid "@ + inner_name,
        ),
{
}

/// Of a list of texts the ids are read, in their order, and the rest is left
/// out.
pub proof fn the_readable_ids_are_read(
    list: Seq<Seq<char>>,
    read: spec_fn(Seq<char>) -> Option<ObjectId>,
)
    requires
        forall|s: Seq<char>| #[trigger] read(s) == oid_parsed(s),
    ensures
        ids_in(list) == list.filter_map(read),
    decreases list.len(),
{
    if list.len() > 0 {
        the_readable_ids_are_read(list.drop_last(), read);
        assert(read(list.last()) == oid_parsed(list.last()));
        if let Some(o) = oid_parsed(list.last()) {
            let rest = list.drop_last().filter_map(read);
            assert(rest.push(o) =~= rest + seq![o]);
        }
    }
}

/// The users of a room are those of its members who have an account, in the
/// members' order.
pub proof fn guests_are_no_users(
    list: Seq<RoomMember>,
    account: spec_fn(RoomMember) -> Option<ObjectId>,
)
    requires
        forall|m: RoomMember| #[trigger] account(m) == m.user_id,
    ensures
        users_of(list) == list.filter_map(account),
    decreases list.len(),
{
    if list.len() > 0 {
        guests_are_no_users(list.drop_last(), account);
        assert(account(list.last()) == list.last().user_id);
        if let Some(o) = list.last().user_id {
            let rest = list.drop_last().filter_map(account);
            assert(rest.push(o) =~= rest + seq![o]);
        }
    }
}

/// A message is complained of exactly where the thread or the message that it
/// refers to is named by a text that is no id, the thread first.
pub proof fn messages_refer_by_id(body: CreateMessageRequest)
    ensures
        complaint(body) is None <==> (body.thread_id matches Some(t) ==> oid_parsed(t@) is Some)
            && (body.referenced_message_id matches Some(t) ==> oid_parsed(t@) is Some),
        (body.thread_id matches Some(t) && oid_parsed(t@) is None) ==> complaint(body) == Some(
            (ErrorKind::BadRequest, "Invalid "@ + "thread_id"@),
        ),
        (body.thread_id matches Some(t) ==> oid_parsed(t@) is Some) && (
        body.referenced_message_id matches Some(t) && oid_parsed(t@) is None) ==> complaint(body)
            == Some((ErrorKind::BadRequest, "Invalid "@ + "referenced_message_id"@)),
{
}

/// A message mentions whom the request mentions: the users whose ids can be
/// read, and everyone or those present exactly where it says so.
pub proof fn mentions_are_those_asked_for(
    m: Option<Mentions>,
    req: Option<MentionRequest>,
    read: spec_fn(Seq<char>) -> Option<ObjectId>,
)
    requires
        mentions_of(m, req),
        forall|s: Seq<char>| #[trigger] read(s) == oid_parsed(s),
    ensures
        m is Some <==> req is Some,
        req matches Some(q) ==> {
            &&& m.unwrap().users@ == views(q.users@).filter_map(read)
            &&& m.unwrap().everyone == q.everyone
            &&& m.unwrap().here == q.here
        },
{
    if let Some(q) = req {
        the_readable_ids_are_read(views(q.users@), read);
    }
}

/// A mention of everyone is told to all the members, another to those who are
/// mentioned; in neither case to the author.
pub proof fn mentions_are_told(m: Mentions, members: Seq<ObjectId>, author: ObjectId)
    ensures
        m.everyone ==> told(m, members, author) == members.filter(other_than(author)),
        !m.everyone ==> told(m, members, author) == m.users@.filter(other_than(author)),
        forall|o: ObjectId| #[trigger] other_than(author)(o) <==> o != author,
{
}

/// The owner of a tenant manages it whatever its roles say, an administrator
/// does, and of the others exactly those whose roles hold the bit for it.
pub proof fn who_manages_a_tenant(tenant: Tenant, user: ObjectId, permissions: u64)
    ensures
        tenant.owner_id == user ==> manages(tenant, user, permissions),
        permissions & 0x80_0000 != 0 ==> manages(tenant, user, permissions),
        tenant.owner_id != user && permissions & 0x80_0000 == 0 ==> (manages(
            tenant,
            user,
            permissions,
        ) <==> permissions & 0x8 == 0x8),
        tenant.owner_id != user ==> !manages(tenant, user, 0),
{
    assert(0u64 & 0x80_0000u64 == 0) by (bit_vector);
    assert(0u64 & 0x8u64 == 0) by (bit_vector);
}

/// What the database could not do is told: what it lacks as not found, what it
/// has already as a conflict, what it refuses as forbidden or invalid, and its
/// own failures as the server's, each with its text.
pub proof fn the_database_is_answered_for(m: String)
    ensures
        status_of(dao_answer(DaoError::NotFound).0) == 404,
        status_of(dao_answer(DaoError::DuplicateKey(m)).0) == 409,
        status_of(dao_answer(DaoError::Forbidden(m)).0) == 403,
        status_of(dao_answer(DaoError::Validation(m)).0) == 422,
        status_of(dao_answer(DaoError::Mongo(m)).0) == 500,
        status_of(dao_answer(DaoError::BsonSer(m)).0) == 500,
        status_of(dao_answer(DaoError::BsonDe(m)).0) == 500,
        forall|e: DaoError|
            e != DaoError::NotFound ==> (#[trigger] dao_answer(e)).1 == match e {
                DaoError::DuplicateKey(t) | DaoError::Forbidden(t) | DaoError::Validation(t) => t@,
                DaoError::Mongo(t) | DaoError::BsonSer(t) | DaoError::BsonDe(t) => t@,
                DaoError::NotFound => seq![],
            },
{
}

/// Who cannot be told apart is not authorized; only where the server itself
/// fails is it the server's fault.
pub proof fn strangers_are_not_authorized(e: AuthError)
    ensures
        status_of(auth_answer(e).0) == 500 <==> e is HashError,
        !(e is HashError) ==> status_of(auth_answer(e).0) == 401,
        e matches AuthError::InvalidToken(m) ==> auth_answer(e).1 == m@,
        e matches AuthError::HashError(m) ==> auth_answer(e).1 == m@,
        auth_answer(AuthError::InvalidCredentials).1 != auth_answer(AuthError::TokenExpired).1,
{
    reveal_strlit("Invalid credentials");
    reveal_strlit("Token expired");
    assert("Invalid credentials"@.len() != "Token expired"@.len());
}

/// The kinds of errors have the numbers that HTTP gives them.
pub proof fn errors_have_their_numbers(kind: ErrorKind)
    ensures
        status_of(kind) == 400 <==> kind == ErrorKind::BadRequest,
        status_of(kind) == 401 <==> kind == ErrorKind::Unauthorized,
        status_of(kind) == 403 <==> kind == ErrorKind::Forbidden,
        status_of(kind) == 404 <==> kind == ErrorKind::NotFound,
        status_of(kind) == 409 <==> kind == ErrorKind::Conflict,
        status_of(kind) == 422 <==> kind == ErrorKind::Validation,
        status_of(kind) == 500 <==> kind == ErrorKind::Internal,
{
}

} // verus!
