//! Channels: what they look like and who is in them.
use vstd::prelude::*;
use crate::api::error::{ApiError, DaoError, ErrorKind, dao_answer};
use crate::api::scope::{Admitted, Asked, item_asked, item_request, opt_id_in, parse_opt_id};
use crate::api::wire::{Body, Paginated, done, hex_of, opt_hex, said, same_place};
use crate::models::channel::{Channel, ChannelType};
use crate::models::channel_member::ChannelMember;
use crate::oid::{ObjectId, oid_hex, time_text};
use crate::text::opt_view;

verus! {

/// A channel to make.
#[derive(Debug)]
#[allow(missing_docs)]
pub struct CreateChannelRequest {
    pub name: String,
    pub channel_type: ChannelType,
    pub parent_id: Option<String>,
    pub is_private: bool,
}

/// What to change of a channel.
#[derive(Debug)]
#[allow(missing_docs)]
pub struct UpdateChannelRequest {
    pub name: Option<String>,
    pub topic: Option<String>,
    pub purpose: Option<String>,
    pub is_private: Option<bool>,
    pub is_archived: Option<bool>,
    pub is_read_only: Option<bool>,
}

/// What to look for among the channels.
#[derive(Debug)]
#[allow(missing_docs)]
pub struct ExploreQuery {
    pub q: String,
}

/// A channel, for clients.
#[derive(Debug)]
#[allow(missing_docs)]
pub struct ChannelResponse {
    pub id: String,
    pub name: String,
    pub path: String,
    pub channel_type: String,
    pub parent_id: Option<String>,
    pub is_private: bool,
    pub member_count: u32,
    pub message_count: u64,
}

/// A request on a channel of a tenant.
pub fn channel_request(tenant_id: &str, channel_id: &str, user: ObjectId) -> (r: Result<Asked<ObjectId>, ApiError>)
    ensures
        match r {
            Ok(a) => item_asked(tenant_id@, channel_id@, "channel_id"@, user) == Ok::<
                _,
                (ErrorKind, Seq<char>),
            >(a),
            Err(e) => item_asked(tenant_id@, channel_id@, "channel_id"@, user) == Err::<
                Asked<ObjectId>,
                _,
            >(e@),
        },
{
    item_request(tenant_id, channel_id, "channel_id", user)
}

/// A channel as a client sees it.
pub open spec fn shows(r: ChannelResponse, m: Channel) -> bool {
    &&& m.id matches Some(id) && r.id@ == oid_hex(id)
    &&& r.name@ == m.name@
    &&& r.path@ == m.path@
    &&& r.channel_type@ == m.channel_type.spec_label()@
    &&& opt_view(r.parent_id) == opt_hex(m.parent_id)
    &&& r.is_private == m.is_private
    &&& r.member_count == m.member_count
    &&& r.message_count == m.message_count
}

/// A channel as a client sees it.
pub fn to_response(m: &Channel) -> (r: ChannelResponse)
    requires
        m.id is Some,
    ensures
        shows(r, *m),
{
    ChannelResponse {
        id: m.id.unwrap().to_hex(),
        name: m.name.clone(),
        path: m.path.clone(),
        channel_type: m.channel_type.label().to_owned(),
        parent_id: hex_of(m.parent_id),
        is_private: m.is_private,
        member_count: m.member_count,
        message_count: m.message_count,
    }
}

/// Every one of them has its id.
pub open spec fn identified(list: Seq<Channel>) -> bool {
    forall|i: int| 0 <= i < list.len() ==> (#[trigger] list[i]).id is Some
}

/// The channels of a tenant, or those that were looked for, one for one.
pub open spec fn shows_all(r: Seq<ChannelResponse>, list: Seq<Channel>) -> bool {
    &&& r.len() == list.len()
    &&& forall|i: int| 0 <= i < r.len() ==> shows(#[trigger] r[i], list[i])
}

/// The channels of a tenant, or those that were looked for, one for one.
pub fn list(items: &Vec<Channel>) -> (r: Vec<ChannelResponse>)
    requires
        identified(items@),
    ensures
        shows_all(r@, items@),
{
    let mut out: Vec<ChannelResponse> = Vec::new();
    let mut i: usize = 0;
    while i < items.len()
        invariant
            i <= items@.len(),
            identified(items@),
            shows_all(out@, items@.take(i as int)),
        decreases items@.len() - i,
    {
        let shown: ChannelResponse = to_response(&items[i]);
        out.push(shown);
        i = i + 1;
    }
    out
}

/// A channel to store.
#[derive(Debug)]
#[allow(missing_docs)]
pub struct NewChannel {
    pub tenant_id: ObjectId,
    pub name: String,
    pub channel_type: ChannelType,
    pub parent_id: Option<ObjectId>,
    pub creator_id: ObjectId,
    pub is_private: bool,
}

/// The channel to store for a request.
pub fn create(asked: &Admitted<()>, body: CreateChannelRequest) -> (r: Result<NewChannel, ApiError>)
    ensures
        match r {
            Ok(n) => {
                &&& opt_id_in(opt_view(body.parent_id), "parent_id"@) == Ok::<
                    _,
                    (ErrorKind, Seq<char>),
                >(n.parent_id)
                &&& n.tenant_id == asked.request().tenant
                &&& n.name == body.name
                &&& n.channel_type == body.channel_type
                &&& n.creator_id == asked.request().user
                &&& n.is_private == body.is_private
            },
            Err(e) => opt_id_in(opt_view(body.parent_id), "parent_id"@) == Err::<
                Option<ObjectId>,
                _,
            >(e@),
        },
{
    let parent_id: Option<ObjectId> = parse_opt_id(&body.parent_id, "parent_id")?;
    Ok(
        NewChannel {
            tenant_id: asked.tenant(),
            name: body.name,
            channel_type: body.channel_type,
            parent_id,
            creator_id: asked.user(),
            is_private: body.is_private,
        },
    )
}

/// The answer to one who joins a channel.
pub fn join(outcome: Result<(), DaoError>) -> (r: Result<Body, ApiError>)
    ensures
        match outcome {
            Ok(()) => r matches Ok(b) && b@ == said("joined"@, true),
            Err(e) => r matches Err(a) && a@ == dao_answer(e),
        },
{
    done("joined", outcome)
}

/// The answer to one who leaves a channel.
pub fn leave(outcome: Result<(), DaoError>) -> (r: Result<Body, ApiError>)
    ensures
        match outcome {
            Ok(()) => r matches Ok(b) && b@ == said("left"@, true),
            Err(e) => r matches Err(a) && a@ == dao_answer(e),
        },
{
    done("left", outcome)
}

/// The answer to a change of a channel.
pub fn update(outcome: Result<(), DaoError>) -> (r: Result<Body, ApiError>)
    ensures
        match outcome {
            Ok(()) => r matches Ok(b) && b@ == said("updated"@, true),
            Err(e) => r matches Err(a) && a@ == dao_answer(e),
        },
{
    done("updated", outcome)
}

/// The answer to the deletion of a channel.
pub fn delete(outcome: Result<(), DaoError>) -> (r: Result<Body, ApiError>)
    ensures
        match outcome {
            Ok(()) => r matches Ok(b) && b@ == said("deleted"@, true),
            Err(e) => r matches Err(a) && a@ == dao_answer(e),
        },
{
    done("deleted", outcome)
}

/// Someone in a channel, for clients.
#[derive(Debug)]
#[allow(missing_docs)]
pub struct ChannelMemberItem {
    pub id: String,
    pub user_id: String,
    pub channel_id: String,
    pub joined_at: String,
    pub unread_count: u32,
    pub is_muted: bool,
}

/// Someone in a channel as a client sees them.
pub open spec fn shows_member(r: ChannelMemberItem, m: ChannelMember) -> bool {
    &&& m.id matches Some(id) && r.id@ == oid_hex(id)
    &&& r.user_id@ == oid_hex(m.user_id)
    &&& r.channel_id@ == oid_hex(m.channel_id)
    &&& r.joined_at@ == time_text(m.joined_at)
    &&& r.unread_count == m.unread_count
    &&& r.is_muted == m.is_muted
}

/// Someone in a channel as a client sees them.
pub fn member_item(m: &ChannelMember) -> (r: ChannelMemberItem)
    requires
        m.id is Some,
    ensures
        shows_member(r, *m),
{
    ChannelMemberItem {
        id: m.id.unwrap().to_hex(),
        user_id: m.user_id.to_hex(),
        channel_id: m.channel_id.to_hex(),
        joined_at: m.joined_at.to_text(),
        unread_count: m.unread_count,
        is_muted: m.is_muted,
    }
}

/// Every one of them has its id.
pub open spec fn members_identified(list: Seq<ChannelMember>) -> bool {
    forall|i: int| 0 <= i < list.len() ==> (#[trigger] list[i]).id is Some
}

/// The people in a channel, one for one.
pub open spec fn shows_member_all(r: Seq<ChannelMemberItem>, list: Seq<ChannelMember>) -> bool {
    &&& r.len() == list.len()
    &&& forall|i: int| 0 <= i < r.len() ==> shows_member(#[trigger] r[i], list[i])
}

/// The people in a channel, one for one.
pub fn member_items(items: &Vec<ChannelMember>) -> (r: Vec<ChannelMemberItem>)
    requires
        members_identified(items@),
    ensures
        shows_member_all(r@, items@),
{
    let mut out: Vec<ChannelMemberItem> = Vec::new();
    let mut i: usize = 0;
    while i < items.len()
        invariant
            i <= items@.len(),
            members_identified(items@),
            shows_member_all(out@, items@.take(i as int)),
        decreases items@.len() - i,
    {
        let shown: ChannelMemberItem = member_item(&items[i]);
        out.push(shown);
        i = i + 1;
    }
    out
}

/// One page of the people in a channel.
pub fn members(page: Paginated<ChannelMember>) -> (r: Paginated<ChannelMemberItem>)
    requires
        members_identified(page.items@),
    ensures
        same_place(r, page),
        shows_member_all(r.items@, page.items@),
{
    Paginated {
        items: member_items(&page.items),
        total: page.total,
        page: page.page,
        per_page: page.per_page,
        total_pages: page.total_pages,
    }
}

/// What a client sees of a channel is its own: the ids read back, and every
/// other part is the part of that name.
pub proof fn channels_show_their_own(r: ChannelResponse, m: Channel)
    requires
        shows(r, m),
    ensures
        crate::oid::oid_parsed(r.id@) == m.id,
        r.name@ == m.name@,
        r.path@ == m.path@,
        r.channel_type@ == m.channel_type.spec_label()@,
        r.parent_id is Some <==> m.parent_id is Some,
        r.parent_id matches Some(s) ==> crate::oid::oid_parsed(s@) == m.parent_id,
        r.is_private == m.is_private,
        r.member_count == m.member_count,
        r.message_count == m.message_count,
{
    crate::oid::hex_round_trip(m.id.unwrap());
    crate::oid::hex_round_trip(m.parent_id.unwrap());
}

/// What a client sees of a member of a channel is that member's own.
pub proof fn channel_members_show_their_own(r: ChannelMemberItem, m: ChannelMember)
    requires
        shows_member(r, m),
    ensures
        crate::oid::oid_parsed(r.id@) == m.id,
        crate::oid::oid_parsed(r.user_id@) == Some(m.user_id),
        crate::oid::oid_parsed(r.channel_id@) == Some(m.channel_id),
        r.joined_at@ == time_text(m.joined_at),
        r.unread_count == m.unread_count,
        r.is_muted == m.is_muted,
{
    crate::oid::hex_round_trip(m.id.unwrap());
    crate::oid::hex_round_trip(m.user_id);
    crate::oid::hex_round_trip(m.channel_id);
}

/// Of a list everything is shown, one for one and in its order.
pub proof fn channels_are_shown_in_order(r: Seq<ChannelResponse>, list: Seq<Channel>, i: int)
    requires
        shows_all(r, list),
    ensures
        r.len() == list.len(),
        0 <= i < r.len() ==> shows(r[i], list[i]),
        0 <= i < r.len() ==> crate::oid::oid_parsed(r[i].id@) == list[i].id,
{
    crate::oid::hex_round_trip(list[i].id.unwrap());
    if 0 <= i < r.len() {
        assert(shows(r[i], list[i]));
    }
}

/// Of a list everything is shown, one for one and in its order.
pub proof fn channel_members_are_shown_in_order(
    r: Seq<ChannelMemberItem>,
    list: Seq<ChannelMember>,
    i: int,
)
    requires
        shows_member_all(r, list),
    ensures
        r.len() == list.len(),
        0 <= i < r.len() ==> shows_member(r[i], list[i]),
        0 <= i < r.len() ==> crate::oid::oid_parsed(r[i].id@) == list[i].id,
{
    crate::oid::hex_round_trip(list[i].id.unwrap());
    if 0 <= i < r.len() {
        assert(shows_member(r[i], list[i]));
    }
}

} // verus!
