//! Who is connected over WebSockets, and by which connections.
//!
//! A connection goes by a number that whoever opened it has given it; a user
//! may have several.
use vstd::prelude::*;
use crate::oid::{ObjectId, oid_value};

verus! {

/// The concurrent map of the `dashmap` crate.
#[verifier::external_type_specification]
#[verifier::external_body]
#[verifier::reject_recursive_types(K)]
#[verifier::reject_recursive_types(V)]
#[verifier::reject_recursive_types(S)]
pub struct ExDashMap<K, V, S>(dashmap::DashMap<K, V, S>);

/// What a map holds.
pub uninterp spec fn contents(m: dashmap::DashMap<u128, Vec<u64>>) -> Map<u128, Seq<u64>>;

/// `dashmap::DashMap::new`: a map that holds nothing.
#[verifier::external_body]
fn map_new() -> (r: dashmap::DashMap<u128, Vec<u64>>)
    ensures
        contents(r).dom() == Set::<u128>::empty(),
{
    dashmap::DashMap::new()
}

/// `dashmap::DashMap::get`: a copy of what the map holds under a key, where it
/// holds something.
#[verifier::external_body]
fn map_get(m: &dashmap::DashMap<u128, Vec<u64>>, key: u128) -> (r: Option<Vec<u64>>)
    ensures
        match r {
            Some(v) => contents(*m).dom().contains(key) && v@ == contents(*m)[key],
            None => !contents(*m).dom().contains(key),
        },
{
    m.get(&key).map(|held| held.value().clone())
}

/// `dashmap::DashMap::insert`: the map holds the value under the key, and all
/// else as before.
#[verifier::external_body]
fn map_insert(m: &mut dashmap::DashMap<u128, Vec<u64>>, key: u128, value: Vec<u64>)
    ensures
        contents(*final(m)) == contents(*old(m)).insert(key, value@),
{
    m.insert(key, value);
}

/// `dashmap::DashMap::remove`: the map holds nothing under the key, and all
/// else as before.
#[verifier::external_body]
fn map_remove(m: &mut dashmap::DashMap<u128, Vec<u64>>, key: u128)
    ensures
        contents(*final(m)) == contents(*old(m)).remove(key),
{
    m.remove(&key);
}

/// `dashmap::DashMap::iter`: every key that the map holds something under,
/// once, with a copy of what it holds. The order is not stated.
#[verifier::external_body]
fn map_entries(m: &dashmap::DashMap<u128, Vec<u64>>) -> (r: Vec<(u128, Vec<u64>)>)
    ensures
        forall|i: int|
            0 <= i < r@.len() ==> contents(*m).dom().contains((#[trigger] r@[i]).0) && contents(
                *m,
            )[r@[i].0] == r@[i].1@,
        forall|i: int, j: int|
            0 <= i < j < r@.len() ==> (#[trigger] r@[i]).0 != (#[trigger] r@[j]).0,
        forall|k: u128| #[trigger]
            contents(*m).dom().contains(k) ==> exists|i: int|
                0 <= i < r@.len() && (#[trigger] r@[i]).0 == k,
{
    m.iter().map(|held| (*held.key(), held.value().clone())).collect()
}

/// The number of a user.
pub open spec fn key_of(user: ObjectId) -> u128 {
    oid_value(user) as u128
}

fn key(user: ObjectId) -> (r: u128)
    ensures
        r == key_of(user),
{
    user.hi as u128 * 0x1_0000_0000_0000_0000 + user.lo as u128
}

/// The user with a number.
pub open spec fn user_of(key: u128) -> ObjectId {
    crate::oid::oid_of(key as nat)
}

fn user(key: u128) -> (r: ObjectId)
    requires
        key < 0x1_0000_0000_0000_0000_0000_0000,
    ensures
        r == user_of(key),
{
    ObjectId {
        hi: (key / 0x1_0000_0000_0000_0000) as u32,
        lo: (key % 0x1_0000_0000_0000_0000) as u64,
    }
}

proof fn lemma_key(user: ObjectId)
    ensures
        user_of(key_of(user)) == user,
        key_of(user) < 0x1_0000_0000_0000_0000_0000_0000,
        key_of(user) == oid_value(user),
{
}

proof fn lemma_user(key: u128)
    requires
        key < 0x1_0000_0000_0000_0000_0000_0000,
    ensures
        key_of(user_of(key)) == key,
{
}

/// The connections that are open, by user.
pub struct WsStorage {
    connections: dashmap::DashMap<u128, Vec<u64>>,
}

/// The connections of a list but one, in order.
pub open spec fn without(list: Seq<u64>, sender: u64) -> Seq<u64>
    decreases list.len(),
{
    if list.len() == 0 {
        seq![]
    } else if list.last() == sender {
        without(list.drop_last(), sender)
    } else {
        without(list.drop_last(), sender).push(list.last())
    }
}

/// How many connections there are in all.
pub open spec fn count(held: Seq<(u128, Vec<u64>)>) -> nat
    decreases held.len(),
{
    if held.len() == 0 {
        0
    } else {
        count(held.drop_last()) + held.last().1@.len()
    }
}

/// What is held once a connection is opened under a key.
pub open spec fn opened(m: Map<u128, Seq<u64>>, k: u128, sender: u64) -> Map<u128, Seq<u64>> {
    m.insert(
        k,
        if m.dom().contains(k) {
            m[k].push(sender)
        } else {
            seq![sender]
        },
    )
}

/// What is held once a connection under a key is closed: the key goes with its
/// last connection.
pub open spec fn closed_in(m: Map<u128, Seq<u64>>, k: u128, sender: u64) -> Map<u128, Seq<u64>> {
    if !m.dom().contains(k) {
        m
    } else if without(m[k], sender).len() == 0 {
        m.remove(k)
    } else {
        m.insert(k, without(m[k], sender))
    }
}

/// The entries are all that is held, once each.
pub open spec fn lists(held: Seq<(u128, Vec<u64>)>, m: Map<u128, Seq<u64>>) -> bool {
    &&& forall|i: int|
        0 <= i < held.len() ==> m.dom().contains((#[trigger] held[i]).0) && m[held[i].0]
            == held[i].1@
    &&& forall|i: int, j: int|
        0 <= i < j < held.len() ==> (#[trigger] held[i]).0 != (#[trigger] held[j]).0
    &&& forall|k: u128| #[trigger]
        m.dom().contains(k) ==> exists|i: int| 0 <= i < held.len() && (#[trigger] held[i]).0 == k
}

impl WsStorage {
    /// What is held.
    pub closed spec fn held(self) -> Map<u128, Seq<u64>> {
        contents(self.connections)
    }

    /// The connections of a user, in the order in which they were opened.
    pub open spec fn senders(self, user: ObjectId) -> Seq<u64> {
        if self.held().dom().contains(key_of(user)) {
            self.held()[key_of(user)]
        } else {
            seq![]
        }
    }

    /// Nobody is held without a connection.
    pub open spec fn wf(self) -> bool {
        forall|k: u128| #[trigger]
            self.held().dom().contains(k) ==> k < 0x1_0000_0000_0000_0000_0000_0000
                && self.held()[k].len() > 0
    }

    /// Nobody is connected.
    pub fn new() -> (r: WsStorage)
        ensures
            r.wf(),
            r.held().dom() == Set::<u128>::empty(),
            forall|user: ObjectId| (#[trigger] r.senders(user)).len() == 0,
    {
        WsStorage { connections: map_new() }
    }

    /// Opens a connection of a user.
    pub fn add(&mut self, user_id: ObjectId, sender: u64)
        requires
            old(self).wf(),
        ensures
            final(self).wf(),
            final(self).held() == opened(old(self).held(), key_of(user_id), sender),
            final(self).senders(user_id) == old(self).senders(user_id).push(sender),
            forall|other: ObjectId|
                other != user_id ==> #[trigger] final(self).senders(other) == old(self).senders(
                    other,
                ),
    {
        let k: u128 = key(user_id);
        let mut list: Vec<u64> = match map_get(&self.connections, k) {
            Some(list) => list,
            None => Vec::new(),
        };
        list.push(sender);
        let ghost now = list@;
        map_insert(&mut self.connections, k, list);
        proof {
            lemma_key(user_id);
            assert(self.held() == old(self).held().insert(k, now));
            assert(now.len() > 0);
            assert forall|j: u128| #[trigger] self.held().dom().contains(j) implies j
                < 0x1_0000_0000_0000_0000_0000_0000 && self.held()[j].len() > 0 by {
                if j != k {
                    assert(old(self).held().dom().contains(j));
                }
            }
            assert forall|other: ObjectId| other != user_id implies #[trigger] self.senders(other)
                == old(self).senders(other) by {
                lemma_key(other);
            }
        }
    }

    /// Closes a connection of a user; who has none left is no longer held.
    pub fn remove(&mut self, user_id: &ObjectId, sender: u64)
        requires
            old(self).wf(),
        ensures
            final(self).wf(),
            final(self).held() == closed_in(old(self).held(), key_of(*user_id), sender),
            final(self).senders(*user_id) == without(old(self).senders(*user_id), sender),
            forall|other: ObjectId|
                other != *user_id ==> #[trigger] final(self).senders(other) == old(self).senders(
                    other,
                ),
    {
        let k: u128 = key(*user_id);
        match map_get(&self.connections, k) {
            Some(list) => {
                let left: Vec<u64> = retain_others(&list, sender);
                if left.is_empty() {
                    map_remove(&mut self.connections, k);
                } else {
                    map_insert(&mut self.connections, k, left);
                }
            },
            None => {},
        }
        proof {
            lemma_key(*user_id);
            assert forall|j: u128| #[trigger] self.held().dom().contains(j) implies j
                < 0x1_0000_0000_0000_0000_0000_0000 && self.held()[j].len() > 0 by {
                assert(old(self).held().dom().contains(j));
            }
            assert forall|other: ObjectId| other != *user_id implies #[trigger] self.senders(other)
                == old(self).senders(other) by {
                lemma_key(other);
            }
        }
    }

    /// The connections of a user.
    pub fn get_senders(&self, user_id: &ObjectId) -> (r: Vec<u64>)
        ensures
            r@ == self.senders(*user_id),
    {
        match map_get(&self.connections, key(*user_id)) {
            Some(list) => list,
            None => Vec::new(),
        }
    }

    /// Everyone who is connected, once each.
    pub fn all_user_ids(&self) -> (r: Vec<ObjectId>)
        requires
            self.wf(),
        ensures
            r@.no_duplicates(),
            forall|user: ObjectId| #[trigger] r@.contains(user) <==> self.senders(user).len() > 0,
    {
        let held: Vec<(u128, Vec<u64>)> = map_entries(&self.connections);
        let mut out: Vec<ObjectId> = Vec::new();
        let mut i: usize = 0;
        while i < held.len()
            invariant
                i <= held@.len(),
                self.wf(),
                lists(held@, self.held()),
                out@.len() == i,
                forall|j: int| 0 <= j < i ==> #[trigger] out@[j] == user_of(held@[j].0),
            decreases held@.len() - i,
        {
            out.push(user(held[i].0));
            i = i + 1;
        }
        proof {
            assert forall|a: int, b: int|
                0 <= a < out@.len() && 0 <= b < out@.len() && a != b implies out@[a] != out@[b] by {
                lemma_user(held@[a].0);
                lemma_user(held@[b].0);
            }
            assert forall|u: ObjectId| #[trigger]
                out@.contains(u) <==> self.senders(u).len() > 0 by {
                lemma_key(u);
                if out@.contains(u) {
                    let j = choose|j: int| 0 <= j < out@.len() && out@[j] == u;
                    lemma_user(held@[j].0);
                }
                if self.senders(u).len() > 0 {
                    assert(self.held().dom().contains(key_of(u)));
                    let j = choose|j: int| 0 <= j < held@.len() && (#[trigger] held@[j]).0 == key_of(
                        u,
                    );
                    assert(out@[j] == u);
                }
            }
        }
        out
    }

    /// How many connections are open; they are counted up to the largest
    /// number that there is.
    pub fn connection_count(&self) -> (r: usize)
        ensures
            exists|held: Seq<(u128, Vec<u64>)>| #[trigger]
                lists(held, self.held()) && r == if count(held) <= usize::MAX {
                    count(held)
                } else {
                    usize::MAX as nat
                },
    {
        let held: Vec<(u128, Vec<u64>)> = map_entries(&self.connections);
        let mut total: usize = 0;
        let mut i: usize = 0;
        while i < held.len()
            invariant
                i <= held@.len(),
                total == if count(held@.take(i as int)) <= usize::MAX {
                    count(held@.take(i as int))
                } else {
                    usize::MAX as nat
                },
            decreases held@.len() - i,
        {
            proof {
                assert(held@.take(i + 1).drop_last() =~= held@.take(i as int));
            }
            total = total.saturating_add(held[i].1.len());
            i = i + 1;
        }
        proof {
            assert(held@.take(held@.len() as int) =~= held@);
            assert(lists(held@, self.held()));
        }
        total
    }
}

impl Default for WsStorage {
    fn default() -> (r: Self)
        ensures
            r.wf(),
            r.held().dom() == Set::<u128>::empty(),
            forall|user: ObjectId| (#[trigger] r.senders(user)).len() == 0,
    {
        WsStorage::new()
    }
}

/// The connections of a list but one, in order.
fn retain_others(list: &Vec<u64>, sender: u64) -> (r: Vec<u64>)
    ensures
        r@ == without(list@, sender),
{
    let mut out: Vec<u64> = Vec::new();
    let mut i: usize = 0;
    while i < list.len()
        invariant
            i <= list@.len(),
            out@ == without(list@.take(i as int), sender),
        decreases list@.len() - i,
    {
        proof {
            assert(list@.take(i + 1).drop_last() =~= list@.take(i as int));
        }
        if list[i] != sender {
            out.push(list[i]);
        }
        i = i + 1;
    }
    proof {
        assert(list@.take(list@.len() as int) =~= list@);
    }
    out
}

proof fn lemma_count_without(held: Seq<(u128, Vec<u64>)>, j: int)
    requires
        0 <= j < held.len(),
    ensures
        count(held) == count(held.remove(j)) + held[j].1@.len(),
    decreases held.len(),
{
    if j == held.len() - 1 {
        assert(held.remove(j) =~= held.drop_last());
    } else {
        lemma_count_without(held.drop_last(), j);
        assert(held.remove(j).drop_last() =~= held.drop_last().remove(j));
        assert(held.remove(j).last() == held.last());
    }
}

proof fn lemma_lists_without(b: Seq<(u128, Vec<u64>)>, m: Map<u128, Seq<u64>>, j: int)
    requires
        lists(b, m),
        0 <= j < b.len(),
    ensures
        lists(b.remove(j), m.remove(b[j].0)),
{
    let b2 = b.remove(j);
    let m2 = m.remove(b[j].0);
    assert forall|i: int| 0 <= i < b2.len() implies m2.dom().contains((#[trigger] b2[i]).0)
        && m2[b2[i].0] == b2[i].1@ by {
        if i < j {
            assert(b2[i] == b[i]);
            assert(b[i].0 != b[j].0);
        } else {
            assert(b2[i] == b[i + 1]);
            assert(b[j].0 != b[i + 1].0);
        }
    }
    assert forall|i: int, l: int| 0 <= i < l < b2.len() implies (#[trigger] b2[i]).0 != (
    #[trigger] b2[l]).0 by {
        let i2 = if i < j {
            i
        } else {
            i + 1
        };
        let l2 = if l < j {
            l
        } else {
            l + 1
        };
        assert(b[i2].0 != b[l2].0);
    }
    assert forall|x: u128| #[trigger] m2.dom().contains(x) implies exists|i: int|
        0 <= i < b2.len() && (#[trigger] b2[i]).0 == x by {
        let i = choose|i: int| 0 <= i < b.len() && (#[trigger] b[i]).0 == x;
        if i < j {
            assert(b2[i].0 == x);
        } else {
            assert(b2[i - 1].0 == x);
        }
    }
}

/// However the connections are listed, there are as many of them.
pub proof fn counts_agree(
    a: Seq<(u128, Vec<u64>)>,
    b: Seq<(u128, Vec<u64>)>,
    m: Map<u128, Seq<u64>>,
)
    requires
        lists(a, m),
        lists(b, m),
    ensures
        count(a) == count(b),
    decreases a.len(),
{
    if a.len() == 0 {
        if b.len() > 0 {
            assert(m.dom().contains(b[0].0));
        }
    } else {
        let k = a.last().0;
        assert(m.dom().contains(a[a.len() - 1].0));
        let j = choose|j: int| 0 <= j < b.len() && (#[trigger] b[j]).0 == k;
        let a2 = a.drop_last();
        let b2 = b.remove(j);
        let m2 = m.remove(k);
        assert(lists(a2, m2)) by {
            assert forall|i: int| 0 <= i < a2.len() implies m2.dom().contains((#[trigger] a2[i]).0)
                && m2[a2[i].0] == a2[i].1@ by {
                assert(a[i].0 != a[a.len() - 1].0);
            }
            assert forall|x: u128| #[trigger] m2.dom().contains(x) implies exists|i: int|
                0 <= i < a2.len() && (#[trigger] a2[i]).0 == x by {
                let i = choose|i: int| 0 <= i < a.len() && (#[trigger] a[i]).0 == x;
                assert(a2[i].0 == x);
            }
        }
        lemma_lists_without(b, m, j);
        counts_agree(a2, b2, m2);
        lemma_count_without(b, j);
        assert(m[k] == b[j].1@);
    }
}

/// Opening a connection makes the count one more.
pub proof fn opening_counts_one(
    before: Seq<(u128, Vec<u64>)>,
    after: Seq<(u128, Vec<u64>)>,
    m: Map<u128, Seq<u64>>,
    k: u128,
    sender: u64,
)
    requires
        lists(before, m),
        lists(after, opened(m, k, sender)),
    ensures
        count(after) == count(before) + 1,
{
    let now = opened(m, k, sender);
    assert(now.dom().contains(k));
    let j = choose|j: int| 0 <= j < after.len() && (#[trigger] after[j]).0 == k;
    lemma_count_without(after, j);
    lemma_lists_without(after, now, j);
    assert(now.remove(k) =~= m.remove(k));
    if m.dom().contains(k) {
        let i = choose|i: int| 0 <= i < before.len() && (#[trigger] before[i]).0 == k;
        lemma_count_without(before, i);
        lemma_lists_without(before, m, i);
        counts_agree(after.remove(j), before.remove(i), m.remove(k));
    } else {
        assert(m.remove(k) =~= m);
        counts_agree(after.remove(j), before, m);
    }
}

/// Closing a connection makes the count less by as many connections of the
/// user as go by its number.
pub proof fn closing_counts_off(
    before: Seq<(u128, Vec<u64>)>,
    after: Seq<(u128, Vec<u64>)>,
    m: Map<u128, Seq<u64>>,
    k: u128,
    sender: u64,
)
    requires
        lists(before, m),
        lists(after, closed_in(m, k, sender)),
    ensures
        !m.dom().contains(k) ==> count(after) == count(before),
        m.dom().contains(k) ==> count(before) == count(after) + m[k].len() - without(
            m[k],
            sender,
        ).len(),
{
    let now = closed_in(m, k, sender);
    if !m.dom().contains(k) {
        counts_agree(after, before, m);
    } else {
        let i = choose|i: int| 0 <= i < before.len() && (#[trigger] before[i]).0 == k;
        lemma_count_without(before, i);
        lemma_lists_without(before, m, i);
        if without(m[k], sender).len() == 0 {
            counts_agree(after, before.remove(i), m.remove(k));
        } else {
            assert(now.dom().contains(k));
            let j = choose|j: int| 0 <= j < after.len() && (#[trigger] after[j]).0 == k;
            lemma_count_without(after, j);
            lemma_lists_without(after, now, j);
            assert(now.remove(k) =~= m.remove(k));
            counts_agree(after.remove(j), before.remove(i), m.remove(k));
        }
    }
}

/// The connections that are left are the others, in their order.
pub proof fn the_others_are_left(list: Seq<u64>, sender: u64, other: spec_fn(u64) -> bool)
    requires
        forall|s: u64| #[trigger] other(s) <==> s != sender,
    ensures
        without(list, sender) == list.filter(other),
    decreases list.len(),
{
    reveal(Seq::filter);
    if list.len() > 0 {
        the_others_are_left(list.drop_last(), sender, other);
        assert(other(list.last()) <==> list.last() != sender);
    }
}

/// A connection that opens is the user's last one, after those that were there,
/// and no other user's connections change.
pub proof fn opening_spares_the_others(m: Map<u128, Seq<u64>>, k: u128, sender: u64, other: u128)
    ensures
        opened(m, k, sender).dom().contains(k),
        m.dom().contains(k) ==> opened(m, k, sender)[k] == m[k] + seq![sender],
        !m.dom().contains(k) ==> opened(m, k, sender)[k] == seq![sender],
        other != k ==> (opened(m, k, sender).dom().contains(other) <==> m.dom().contains(other)),
        other != k ==> opened(m, k, sender)[other] == m[other],
{
}

/// A user whose last connection closes is not there any more; of one who has
/// others, those are left; and no other user's connections change.
pub proof fn closing_spares_the_others(
    m: Map<u128, Seq<u64>>,
    k: u128,
    sender: u64,
    other: u128,
    rest: spec_fn(u64) -> bool,
)
    requires
        forall|s: u64| #[trigger] rest(s) <==> s != sender,
    ensures
        closed_in(m, k, sender).dom().contains(k) <==> m.dom().contains(k) && m[k].filter(
            rest,
        ).len() > 0,
        closed_in(m, k, sender).dom().contains(k) ==> closed_in(m, k, sender)[k] == m[k].filter(
            rest,
        ),
        other != k ==> (closed_in(m, k, sender).dom().contains(other) <==> m.dom().contains(
            other,
        )),
        other != k ==> closed_in(m, k, sender)[other] == m[other],
{
    if m.dom().contains(k) {
        the_others_are_left(m[k], sender, rest);
    }
}

/// What was opened and closed again leaves no trace.
pub proof fn closing_undoes_opening(list: Seq<u64>, sender: u64)
    requires
        !list.contains(sender),
    ensures
        without(list.push(sender), sender) == list,
{
    assert(list.push(sender).drop_last() =~= list);
    lemma_without_absent(list, sender);
}

proof fn lemma_without_absent(list: Seq<u64>, sender: u64)
    requires
        !list.contains(sender),
    ensures
        without(list, sender) == list,
    decreases list.len(),
{
    if list.len() > 0 {
        assert(list[list.len() - 1] != sender);
        assert forall|i: int| 0 <= i < list.drop_last().len() implies list.drop_last()[i]
            != sender by {
            assert(list[i] != sender);
        }
        lemma_without_absent(list.drop_last(), sender);
        assert(list.drop_last().push(list.last()) =~= list);
    }
}

/// A connection that is closed is not among those that are left, and the
/// others are.
pub proof fn closing_spares_the_rest(list: Seq<u64>, sender: u64, other: u64)
    ensures
        !without(list, sender).contains(sender),
        other != sender ==> (without(list, sender).contains(other) <==> list.contains(other)),
    decreases list.len(),
{
    broadcast use vstd::seq_lib::group_seq_properties;

    if list.len() > 0 {
        let front = list.drop_last();
        closing_spares_the_rest(front, sender, other);
        assert(list =~= front.push(list.last()));
        assert(list.contains(other) <==> front.contains(other) || list.last() == other);
    }
}

} // verus!
