//! Tenants.
use vstd::prelude::*;
use crate::models::tenant::Tenant;
use crate::oid::oid_hex;

verus! {

/// A tenant to make.
#[derive(Debug)]
#[allow(missing_docs)]
pub struct CreateTenantRequest {
    pub name: String,
    pub slug: String,
}

/// A tenant, for clients.
#[derive(Debug)]
#[allow(missing_docs)]
pub struct TenantResponse {
    pub id: String,
    pub name: String,
    pub slug: String,
    pub owner_id: String,
    pub plan: String,
}

/// A tenant as a client sees it.
pub open spec fn shows(r: TenantResponse, m: Tenant) -> bool {
    &&& m.id matches Some(id) && r.id@ == oid_hex(id)
    &&& r.name@ == m.name@
    &&& r.slug@ == m.slug@
    &&& r.owner_id@ == oid_hex(m.owner_id)
    &&& r.plan@ == m.plan.spec_label()@
}

/// A tenant as a client sees it.
pub fn to_response(m: &Tenant) -> (r: TenantResponse)
    requires
        m.id is Some,
    ensures
        shows(r, *m),
{
    TenantResponse {
        id: m.id.unwrap().to_hex(),
        name: m.name.clone(),
        slug: m.slug.clone(),
        owner_id: m.owner_id.to_hex(),
        plan: m.plan.label().to_owned(),
    }
}

/// Every one of them has its id.
pub open spec fn identified(list: Seq<Tenant>) -> bool {
    forall|i: int| 0 <= i < list.len() ==> (#[trigger] list[i]).id is Some
}

/// The tenants of a user, one for one.
pub open spec fn shows_all(r: Seq<TenantResponse>, list: Seq<Tenant>) -> bool {
    &&& r.len() == list.len()
    &&& forall|i: int| 0 <= i < r.len() ==> shows(#[trigger] r[i], list[i])
}

/// The tenants of a user, one for one.
pub fn list(items: &Vec<Tenant>) -> (r: Vec<TenantResponse>)
    requires
        identified(items@),
    ensures
        shows_all(r@, items@),
{
    let mut out: Vec<TenantResponse> = Vec::new();
    let mut i: usize = 0;
    while i < items.len()
        invariant
            i <= items@.len(),
            identified(items@),
            shows_all(out@, items@.take(i as int)),
        decreases items@.len() - i,
    {
        let shown: TenantResponse = to_response(&items[i]);
        out.push(shown);
        i = i + 1;
    }
    out
}

/// What a client sees of a tenant is its own.
pub proof fn tenants_show_their_own(r: TenantResponse, m: Tenant)
    requires
        shows(r, m),
    ensures
        crate::oid::oid_parsed(r.id@) == m.id,
        r.name@ == m.name@,
        r.slug@ == m.slug@,
        crate::oid::oid_parsed(r.owner_id@) == Some(m.owner_id),
        r.plan@ == m.plan.spec_label()@,
{
    crate::oid::hex_round_trip(m.id.unwrap());
    crate::oid::hex_round_trip(m.owner_id);
}

/// Of a list everything is shown, one for one and in its order.
pub proof fn tenants_are_shown_in_order(r: Seq<TenantResponse>, list: Seq<Tenant>, i: int)
    requires
        shows_all(r, list),
    ensures
        r.len() == list.len(),
        0 <= i < r.len() ==> shows(r[i], list[i]),
        0 <= i < r.len() ==> crate::oid::oid_parsed(r[i].id@) == list[i].id,
{
    crate::oid::hex_round_trip(list[i].id.unwrap());
    if 0 <= i < r.len() {
        assert(shows(r[i], list[i]));
    }
}

} // verus!
