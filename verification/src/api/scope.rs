//! Requests on the things of a tenant: their ids and who may make them.
use vstd::prelude::*;
use crate::oid::{ObjectId, oid_parsed};
use crate::api::error::{ApiError, DaoError, ErrorKind, dao_answer, dao_error, forbidden};

verus! {

/// The answer to a text that is no id.
pub open spec fn invalid(name: Seq<char>) -> (ErrorKind, Seq<char>) {
    (ErrorKind::BadRequest, "Invalid "@ + name)
}

/// The answer to a user who does not belong to the tenant.
pub open spec fn not_a_member() -> (ErrorKind, Seq<char>) {
    (ErrorKind::Forbidden, "Not a member"@)
}

/// The id in a text, or the answer that names what is invalid.
pub open spec fn id_in(text: Seq<char>, name: Seq<char>) -> Result<ObjectId, (ErrorKind, Seq<char>)> {
    match oid_parsed(text) {
        Some(o) => Ok(o),
        None => Err(invalid(name)),
    }
}

/// The id in an optional text; there is none where there is no text.
pub open spec fn opt_id_in(text: Option<Seq<char>>, name: Seq<char>) -> Result<
    Option<ObjectId>,
    (ErrorKind, Seq<char>),
> {
    match text {
        None => Ok(None),
        Some(t) => match oid_parsed(t) {
            Some(o) => Ok(Some(o)),
            None => Err(invalid(name)),
        },
    }
}

/// The id in `text`, which the error calls `name`.
pub fn parse_id(text: &str, name: &str) -> (r: Result<ObjectId, ApiError>)
    ensures
        match r {
            Ok(o) => id_in(text@, name@) == Ok::<_, (ErrorKind, Seq<char>)>(o),
            Err(e) => id_in(text@, name@) == Err::<ObjectId, _>(e@),
        },
{
    match ObjectId::parse_str(text) {
        Some(o) => Ok(o),
        None => {
            let m: String = crate::text::cat2("Invalid ", name);
            Err(ApiError::BadRequest(m))
        },
    }
}

/// The id in an optional text, which the error calls `name`.
pub fn parse_opt_id(text: &Option<String>, name: &str) -> (r: Result<Option<ObjectId>, ApiError>)
    ensures
        match r {
            Ok(o) => opt_id_in(crate::text::opt_view(*text), name@) == Ok::<
                _,
                (ErrorKind, Seq<char>),
            >(o),
            Err(e) => opt_id_in(crate::text::opt_view(*text), name@) == Err::<
                Option<ObjectId>,
                _,
            >(e@),
        },
{
    match text {
        None => Ok(None),
        Some(t) => match parse_id(t.as_str(), name) {
            Ok(o) => Ok(Some(o)),
            Err(e) => Err(e),
        },
    }
}

/// A request of `user` on `part` of a tenant, while it is not known whether
/// the user belongs to the tenant.
#[derive(Debug)]
pub struct Asked<T> {
    /// The tenant.
    pub tenant: ObjectId,
    /// Who asks.
    pub user: ObjectId,
    /// What of the tenant's is asked for.
    pub part: T,
}

/// A request of a user who belongs to the tenant. `Asked::grant` is the only
/// way to one.
#[derive(Debug)]
pub struct Admitted<T> {
    tenant: ObjectId,
    user: ObjectId,
    part: T,
}

impl<T> Admitted<T> {
    /// The request that was admitted.
    pub closed spec fn request(self) -> Asked<T> {
        Asked { tenant: self.tenant, user: self.user, part: self.part }
    }

    /// The tenant.
    pub fn tenant(&self) -> (r: ObjectId)
        ensures
            r == self.request().tenant,
    {
        self.tenant
    }

    /// Who asks.
    pub fn user(&self) -> (r: ObjectId)
        ensures
            r == self.request().user,
    {
        self.user
    }

    /// What of the tenant's is asked for.
    pub fn part(&self) -> (r: &T)
        ensures
            *r == self.request().part,
    {
        &self.part
    }
}

/// What becomes of a request once the database has said whether the user
/// belongs to the tenant.
pub open spec fn admission<T>(
    asked: Asked<T>,
    member: Result<bool, DaoError>,
) -> Result<Asked<T>, (ErrorKind, Seq<char>)> {
    match member {
        Ok(true) => Ok(asked),
        Ok(false) => Err(not_a_member()),
        Err(e) => Err(dao_answer(e)),
    }
}

impl<T> Asked<T> {
    /// Grants the request where the database says that the user belongs to the
    /// tenant.
    pub fn grant(self, member: Result<bool, DaoError>) -> (r: Result<Admitted<T>, ApiError>)
        ensures
            match r {
                Ok(a) => admission(self, member) == Ok::<_, (ErrorKind, Seq<char>)>(a.request()),
                Err(e) => admission(self, member) == Err::<Asked<T>, _>(e@),
            },
    {
        match member {
            Ok(yes) => if yes {
                Ok(Admitted { tenant: self.tenant, user: self.user, part: self.part })
            } else {
                Err(forbidden("Not a member"))
            },
            Err(e) => Err(dao_error(e)),
        }
    }
}

/// A request on a tenant.
pub open spec fn tenant_asked(tenant_id: Seq<char>, user: ObjectId) -> Result<
    Asked<()>,
    (ErrorKind, Seq<char>),
> {
    match id_in(tenant_id, "tenant_id"@) {
        Ok(tenant) => Ok(Asked { tenant, user, part: () }),
        Err(e) => Err(e),
    }
}

/// A request on one thing of a tenant.
pub open spec fn item_asked(
    tenant_id: Seq<char>,
    item: Seq<char>,
    name: Seq<char>,
    user: ObjectId,
) -> Result<Asked<ObjectId>, (ErrorKind, Seq<char>)> {
    match id_in(tenant_id, "tenant_id"@) {
        Ok(tenant) => match id_in(item, name) {
            Ok(part) => Ok(Asked { tenant, user, part }),
            Err(e) => Err(e),
        },
        Err(e) => Err(e),
    }
}

/// A request on one thing of a tenant and another inside it.
pub open spec fn pair_asked(
    tenant_id: Seq<char>,
    outer: Seq<char>,
    outer_name: Seq<char>,
    inner: Seq<char>,
    inner_name: Seq<char>,
    user: ObjectId,
) -> Result<Asked<(ObjectId, ObjectId)>, (ErrorKind, Seq<char>)> {
    match item_asked(tenant_id, outer, outer_name, user) {
        Ok(a) => match id_in(inner, inner_name) {
            Ok(i) => Ok(Asked { tenant: a.tenant, user, part: (a.part, i) }),
            Err(e) => Err(e),
        },
        Err(e) => Err(e),
    }
}

/// A request on a tenant.
pub fn tenant_request(tenant_id: &str, user: ObjectId) -> (r: Result<Asked<()>, ApiError>)
    ensures
        match r {
            Ok(a) => tenant_asked(tenant_id@, user) == Ok::<_, (ErrorKind, Seq<char>)>(a),
            Err(e) => tenant_asked(tenant_id@, user) == Err::<Asked<()>, _>(e@),
        },
{
    let tenant: ObjectId = parse_id(tenant_id, "tenant_id")?;
    Ok(Asked { tenant, user, part: () })
}

/// A request on one thing of a tenant, whose id the error calls `name`.
pub fn item_request(tenant_id: &str, item: &str, name: &str, user: ObjectId) -> (r: Result<
    Asked<ObjectId>,
    ApiError,
>)
    ensures
        match r {
            Ok(a) => item_asked(tenant_id@, item@, name@, user) == Ok::<
                _,
                (ErrorKind, Seq<char>),
            >(a),
            Err(e) => item_asked(tenant_id@, item@, name@, user) == Err::<
                Asked<ObjectId>,
                _,
            >(e@),
        },
{
    let tenant: ObjectId = parse_id(tenant_id, "tenant_id")?;
    let part: ObjectId = parse_id(item, name)?;
    Ok(Asked { tenant, user, part })
}

/// A request on one thing of a tenant and another inside it.
pub fn pair_request(
    tenant_id: &str,
    outer: &str,
    outer_name: &str,
    inner: &str,
    inner_name: &str,
    user: ObjectId,
) -> (r: Result<Asked<(ObjectId, ObjectId)>, ApiError>)
    ensures
        match r {
            Ok(a) => pair_asked(tenant_id@, outer@, outer_name@, inner@, inner_name@, user)
                == Ok::<_, (ErrorKind, Seq<char>)>(a),
            Err(e) => pair_asked(tenant_id@, outer@, outer_name@, inner@, inner_name@, user)
                == Err::<Asked<(ObjectId, ObjectId)>, _>(e@),
        },
{
    let a: Asked<ObjectId> = item_request(tenant_id, outer, outer_name, user)?;
    let i: ObjectId = parse_id(inner, inner_name)?;
    Ok(Asked { tenant: a.tenant, user, part: (a.part, i) })
}

/// A request on a room of a tenant.
pub fn room_request(tenant_id: &str, room_id: &str, user: ObjectId) -> (r: Result<
    Asked<ObjectId>,
    ApiError,
>)
    ensures
        match r {
            Ok(a) => item_asked(tenant_id@, room_id@, "room_id"@, user) == Ok::<
                _,
                (ErrorKind, Seq<char>),
            >(a),
            Err(e) => item_asked(tenant_id@, room_id@, "room_id"@, user) == Err::<
                Asked<ObjectId>,
                _,
            >(e@),
        },
{
    item_request(tenant_id, room_id, "room_id", user)
}

/// Who does not belong to the tenant is refused, whatever is asked for; and
/// nothing but the database's word admits a request.
pub proof fn only_members_are_admitted<T>(asked: Asked<T>, member: Result<bool, DaoError>)
    ensures
        admission(asked, member) is Ok <==> member == Ok::<bool, DaoError>(true),
        member == Ok::<bool, DaoError>(false) ==> admission(asked, member) == Err::<Asked<T>, _>(
            not_a_member(),
        ),
{
}

/// The ids in those texts of a list that hold one, in order.
pub open spec fn ids_in(list: Seq<Seq<char>>) -> Seq<ObjectId>
    decreases list.len(),
{
    if list.len() == 0 {
        seq![]
    } else {
        let rest = ids_in(list.drop_last());
        match oid_parsed(list.last()) {
            Some(o) => rest.push(o),
            None => rest,
        }
    }
}

/// The ids in those texts of a list that hold one, in order.
pub fn parse_ids(list: &Vec<String>) -> (r: Vec<ObjectId>)
    ensures
        r@ == ids_in(crate::text::views(list@)),
{
    let mut out: Vec<ObjectId> = Vec::new();
    let mut i: usize = 0;
    let ghost all = crate::text::views(list@);
    while i < list.len()
        invariant
            i <= list@.len(),
            all == crate::text::views(list@),
            out@ == ids_in(all.take(i as int)),
        decreases list@.len() - i,
    {
        proof {
            assert(all.take(i + 1).drop_last() =~= all.take(i as int));
            assert(all.take(i + 1).last() == list@[i as int]@);
        }
        match ObjectId::parse_str(list[i].as_str()) {
            Some(o) => {
                out.push(o);
            },
            None => {},
        }
        i = i + 1;
    }
    proof {
        assert(all.take(all.len() as int) =~= all);
    }
    out
}

/// To be another id than `id`.
pub open spec fn other_than(id: ObjectId) -> spec_fn(ObjectId) -> bool {
    |o: ObjectId| o != id
}

/// The ids of a list but one, in order.
pub open spec fn but(list: Seq<ObjectId>, id: ObjectId) -> Seq<ObjectId> {
    list.filter(other_than(id))
}

/// The ids of a list but one, in order.
pub fn all_but(list: &Vec<ObjectId>, id: ObjectId) -> (r: Vec<ObjectId>)
    ensures
        r@ == but(list@, id),
{
    let mut out: Vec<ObjectId> = Vec::new();
    let mut i: usize = 0;
    let ghost keep = other_than(id);
    proof {
        assert(list@.take(0).filter(keep) =~= Seq::<ObjectId>::empty()) by {
            reveal(Seq::filter);
        }
    }
    while i < list.len()
        invariant
            i <= list@.len(),
            keep == other_than(id),
            out@ == list@.take(i as int).filter(keep),
        decreases list@.len() - i,
    {
        proof {
            reveal(Seq::filter);
            assert(list@.take(i + 1).drop_last() =~= list@.take(i as int));
        }
        if list[i] != id {
            out.push(list[i]);
        }
        i = i + 1;
    }
    proof {
        assert(list@.take(list@.len() as int) =~= list@);
    }
    out
}

/// Whether an id is in a list.
pub fn holds(list: &Vec<ObjectId>, id: ObjectId) -> (r: bool)
    ensures
        r == list@.contains(id),
{
    let mut i: usize = 0;
    while i < list.len()
        invariant
            i <= list@.len(),
            forall|j: int| 0 <= j < i ==> list@[j] != id,
        decreases list@.len() - i,
    {
        if list[i] == id {
            proof {
                assert(list@[i as int] == id);
            }
            return true;
        }
        i = i + 1;
    }
    false
}

/// Who is left out of a list is not in what remains, and everyone else is as
/// they were.
pub proof fn leaving_out_spares_the_rest(list: Seq<ObjectId>, id: ObjectId, other: ObjectId)
    ensures
        !but(list, id).contains(id),
        other != id ==> (but(list, id).contains(other) <==> list.contains(other)),
    decreases list.len(),
{
    reveal(Seq::filter);
    broadcast use vstd::seq_lib::group_seq_properties;
    if list.len() > 0 {
        let front = list.drop_last();
        leaving_out_spares_the_rest(front, id, other);
        assert(list =~= front.push(list.last()));
        assert(list.contains(other) <==> front.contains(other) || list.last() == other);
    }
}

} // verus!
