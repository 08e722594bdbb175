//! The people of a tenant.
use vstd::prelude::*;
use crate::api::wire::{Paginated, same_place};
use crate::models::tenant_member::TenantMember;
use crate::oid::{ObjectId, oid_hex, time_text};
use crate::text::{opt_view, views};

verus! {

/// Someone of a tenant, for clients.
#[derive(Debug)]
#[allow(missing_docs)]
pub struct MemberResponse {
    pub id: String,
    pub user_id: String,
    pub nickname: Option<String>,
    pub role_ids: Vec<String>,
    pub joined_at: String,
}

/// Ids in hexadecimal, one for one.
pub open spec fn hexes(ids: Seq<ObjectId>) -> Seq<Seq<char>> {
    ids.map_values(|o: ObjectId| oid_hex(o))
}

fn hex_list(ids: &Vec<ObjectId>) -> (r: Vec<String>)
    ensures
        views(r@) == hexes(ids@),
{
    let mut out: Vec<String> = Vec::new();
    let mut i: usize = 0;
    proof {
        assert(views(out@) =~= hexes(ids@).take(0));
    }
    while i < ids.len()
        invariant
            i <= ids@.len(),
            views(out@) == hexes(ids@).take(i as int),
        decreases ids@.len() - i,
    {
        let ghost was = out@;
        out.push(ids[i].to_hex());
        proof {
            assert(views(out@) =~= views(was).push(oid_hex(ids@[i as int])));
            assert(hexes(ids@).take(i + 1) =~= hexes(ids@).take(i as int).push(
                oid_hex(ids@[i as int]),
            ));
        }
        i = i + 1;
    }
    proof {
        assert(hexes(ids@).take(ids@.len() as int) =~= hexes(ids@));
    }
    out
}

/// Someone of a tenant as a client sees them.
pub open spec fn shows(r: MemberResponse, m: TenantMember) -> bool {
    &&& m.id matches Some(id) && r.id@ == oid_hex(id)
    &&& r.user_id@ == oid_hex(m.user_id)
    &&& opt_view(r.nickname) == opt_view(m.nickname)
    &&& views(r.role_ids@) == hexes(m.role_ids@)
    &&& r.joined_at@ == time_text(m.joined_at)
}

/// Someone of a tenant as a client sees them.
pub fn to_response(m: &TenantMember) -> (r: MemberResponse)
    requires
        m.id is Some,
    ensures
        shows(r, *m),
{
    MemberResponse {
        id: m.id.unwrap().to_hex(),
        user_id: m.user_id.to_hex(),
        nickname: crate::text::copy_opt(&m.nickname),
        role_ids: hex_list(&m.role_ids),
        joined_at: m.joined_at.to_text(),
    }
}

/// Every one of them has its id.
pub open spec fn identified(list: Seq<TenantMember>) -> bool {
    forall|i: int| 0 <= i < list.len() ==> (#[trigger] list[i]).id is Some
}

/// The people of a tenant, one for one.
pub open spec fn shows_all(r: Seq<MemberResponse>, list: Seq<TenantMember>) -> bool {
    &&& r.len() == list.len()
    &&& forall|i: int| 0 <= i < r.len() ==> shows(#[trigger] r[i], list[i])
}

/// The people of a tenant, one for one.
pub fn responses(items: &Vec<TenantMember>) -> (r: Vec<MemberResponse>)
    requires
        identified(items@),
    ensures
        shows_all(r@, items@),
{
    let mut out: Vec<MemberResponse> = Vec::new();
    let mut i: usize = 0;
    while i < items.len()
        invariant
            i <= items@.len(),
            identified(items@),
            shows_all(out@, items@.take(i as int)),
        decreases items@.len() - i,
    {
        let shown: MemberResponse = to_response(&items[i]);
        out.push(shown);
        i = i + 1;
    }
    out
}

/// One page of the people of a tenant.
pub fn list_members(page: Paginated<TenantMember>) -> (r: Paginated<MemberResponse>)
    requires
        identified(page.items@),
    ensures
        same_place(r, page),
        shows_all(r.items@, page.items@),
{
    Paginated {
        items: responses(&page.items),
        total: page.total,
        page: page.page,
        per_page: page.per_page,
        total_pages: page.total_pages,
    }
}

/// What a client sees of a member is that member's own.
pub proof fn members_show_their_own(r: MemberResponse, m: TenantMember)
    requires
        shows(r, m),
    ensures
        crate::oid::oid_parsed(r.id@) == m.id,
        crate::oid::oid_parsed(r.user_id@) == Some(m.user_id),
        r.nickname is Some <==> m.nickname is Some,
        r.nickname matches Some(s) ==> s@ == m.nickname.unwrap()@,
        r.role_ids@.len() == m.role_ids@.len(),
        forall|i: int|
            0 <= i < r.role_ids@.len() ==> crate::oid::oid_parsed((#[trigger] r.role_ids@[i])@)
                == Some(m.role_ids@[i]),
        r.joined_at@ == time_text(m.joined_at),
{
    crate::oid::hex_round_trip(m.id.unwrap());
    crate::oid::hex_round_trip(m.user_id);
    assert(views(r.role_ids@).len() == r.role_ids@.len());
    assert(hexes(m.role_ids@).len() == m.role_ids@.len());
    assert forall|i: int| 0 <= i < r.role_ids@.len() implies crate::oid::oid_parsed(
        (#[trigger] r.role_ids@[i])@,
    ) == Some(m.role_ids@[i]) by {
        crate::oid::hex_round_trip(m.role_ids@[i]);
        assert(views(r.role_ids@)[i] == hexes(m.role_ids@)[i]);
    }
}

/// Of a list everything is shown, one for one and in its order.
pub proof fn members_are_shown_in_order(r: Seq<MemberResponse>, list: Seq<TenantMember>, i: int)
    requires
        shows_all(r, list),
    ensures
        r.len() == list.len(),
        0 <= i < r.len() ==> shows(r[i], list[i]),
        0 <= i < r.len() ==> crate::oid::oid_parsed(r[i].id@) == list[i].id,
{
    crate::oid::hex_round_trip(list[i].id.unwrap());
    if 0 <= i < r.len() {
        assert(shows(r[i], list[i]));
    }
}

} // verus!
