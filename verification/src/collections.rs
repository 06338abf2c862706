//! Accessor views: typed, read-only façades over a holder.
//!
//! Each operation obtains the current snapshot from the holder (one cheap
//! pointer clone under the lock, no data copy) and then reads from that
//! snapshot with no lock held. Every answer is therefore computed from one
//! complete snapshot satisfying the holder's invariant — never from a
//! mixture of two snapshots, and never from an uninitialized state, since a
//! holder is born holding a snapshot.
//!
//! The map and set views are backed by plain vectors of entries; a refresh
//! replaces the whole vector, so the usual reason to prefer a hashed
//! container (in-place churn) does not arise. Key lookups are exact
//! whenever the key type's `==` agrees with logical equality
//! (`vstd::laws_eq::obeys_concrete_eq`), which holds for the primitive
//! integer and boolean types and for types deriving `Structural`.

use vstd::prelude::*;

use std::sync::Arc;
use vstd::laws_eq::obeys_concrete_eq;
use vstd::std_specs::cmp::PartialEqSpec;

use crate::holder::{arc_clone, Holder};
use crate::snapshot::Snapshot;

verus! {

/// A read-only façade that can be bound to a holder. `inv` echoes the
/// holder's snapshot invariant, so everything the holder guarantees of its
/// snapshots is available on every read.
pub trait AccessorView<E, T>: Sized {
    spec fn inv(&self, s: Arc<Snapshot<E, T>>) -> bool;

    fn from_holder(h: Holder<E, T>) -> (r: Self)
        ensures
            forall|s: Arc<Snapshot<E, T>>| #[trigger] r.inv(s) <==> h.inv(s),
    ;
}

/// The value `key` maps to in an entry sequence: the first entry with an
/// equal key, if any.
pub open spec fn map_find<K, V>(entries: Seq<(K, V)>, key: K) -> Option<V>
    decreases entries.len(),
{
    if entries.len() == 0 {
        None
    } else if entries[0].0 == key {
        Some(entries[0].1)
    } else {
        map_find(entries.drop_first(), key)
    }
}

/// The position of the first entry with an equal key, or `entries.len()`
/// when no entry has one.
pub open spec fn first_key_index<K, V>(entries: Seq<(K, V)>, key: K) -> nat
    decreases entries.len(),
{
    if entries.len() == 0 {
        0
    } else if entries[0].0 == key {
        0
    } else {
        1 + first_key_index(entries.drop_first(), key)
    }
}

/// Map insertion at the model level: replace the first entry carrying an
/// equal key, or append a new entry when no entry does.
pub open spec fn map_put<K, V>(entries: Seq<(K, V)>, key: K, value: V) -> Seq<(K, V)> {
    if map_find(entries, key) is Some {
        entries.update(first_key_index(entries, key) as int, (key, value))
    } else {
        entries.push((key, value))
    }
}

/// Set insertion at the model level: append the value unless an equal one
/// is already present.
pub open spec fn set_put<T>(items: Seq<T>, val: T) -> Seq<T> {
    if items.contains(val) {
        items
    } else {
        items.push(val)
    }
}

/// `first_key_index` is exactly the position of the first equal key, and a
/// lookup succeeds exactly when some entry carries one.
pub proof fn lemma_first_key_index_at<K, V>(entries: Seq<(K, V)>, key: K, j: int)
    requires
        0 <= j <= entries.len(),
        forall|i: int| 0 <= i < j ==> !((#[trigger] entries[i]).0 == key),
        j < entries.len() ==> entries[j].0 == key,
    ensures
        first_key_index(entries, key) == j,
        j < entries.len() ==> map_find(entries, key) is Some,
        j == entries.len() ==> map_find(entries, key) is None,
    decreases j,
{
    if entries.len() == 0 {
    } else if j == 0 {
    } else {
        let rest = entries.drop_first();
        assert(forall|i: int| 0 <= i < j - 1 ==> !((#[trigger] rest[i]).0 == key));
        lemma_first_key_index_at(rest, key, j - 1);
    }
}

/// No two entries carry equal keys.
pub open spec fn unique_keys<K, V>(entries: Seq<(K, V)>) -> bool {
    forall|a: int, b: int|
        0 <= a < b < entries.len() ==> !((#[trigger] entries[a]).0 == (#[trigger] entries[b]).0)
}

/// No two items are equal.
pub open spec fn distinct_items<T>(items: Seq<T>) -> bool {
    forall|a: int, b: int|
        0 <= a < b < items.len() ==> !(#[trigger] items[a] == #[trigger] items[b])
}

/// Entries before `i` cannot answer a lookup for `key`, so the scan may
/// start at `i`.
pub proof fn lemma_map_find_skip_prefix<K, V>(entries: Seq<(K, V)>, key: K, i: int)
    requires
        0 <= i <= entries.len(),
        forall|j: int| 0 <= j < i ==> !((#[trigger] entries[j]).0 == key),
    ensures
        map_find(entries, key) == map_find(entries.subrange(i, entries.len() as int), key),
    decreases i,
{
    if i == 0 {
        assert(entries.subrange(0, entries.len() as int) =~= entries);
    } else {
        let rest = entries.drop_first();
        assert(forall|j: int| 0 <= j < i - 1 ==> !((#[trigger] rest[j]).0 == key));
        lemma_map_find_skip_prefix(rest, key, i - 1);
        assert(rest.subrange(i - 1, rest.len() as int) =~= entries.subrange(
            i,
            entries.len() as int,
        ));
    }
}

/// Replacing the entry at `i` with one carrying the same key leaves every
/// lookup for a different key unchanged.
pub proof fn lemma_map_find_update_same_key<K, V>(
    entries: Seq<(K, V)>,
    i: int,
    p: (K, V),
    other: K,
)
    requires
        0 <= i < entries.len(),
        entries[i].0 == p.0,
        !(other == p.0),
    ensures
        map_find(entries.update(i, p), other) == map_find(entries, other),
    decreases i,
{
    let updated = entries.update(i, p);
    if i == 0 {
        assert(updated.drop_first() =~= entries.drop_first());
    } else {
        assert(updated[0] == entries[0]);
        if !(entries[0].0 == other) {
            lemma_map_find_update_same_key(entries.drop_first(), i - 1, p, other);
            assert(updated.drop_first() =~= entries.drop_first().update(i - 1, p));
        }
    }
}

/// What appending one entry does to a lookup: an already present key keeps
/// its value; the appended key becomes found; everything else stays absent.
pub proof fn lemma_map_find_push<K, V>(entries: Seq<(K, V)>, p: (K, V), key: K)
    ensures
        map_find(entries.push(p), key) == (if map_find(entries, key) is Some {
            map_find(entries, key)
        } else if p.0 == key {
            Some(p.1)
        } else {
            None
        }),
    decreases entries.len(),
{
    let pushed = entries.push(p);
    if entries.len() == 0 {
        assert(pushed[0] == p);
        assert(pushed.drop_first() =~= Seq::<(K, V)>::empty());
        if p.0 == key {
            assert(map_find(pushed, key) == Some(p.1));
        } else {
            assert(map_find(pushed, key) is None);
        }
        assert(map_find(entries, key) is None);
    } else {
        assert(pushed[0] == entries[0]);
        if entries[0].0 == key {
            assert(map_find(pushed, key) == Some(pushed[0].1));
            assert(map_find(entries, key) == Some(entries[0].1));
        } else {
            lemma_map_find_push(entries.drop_first(), p, key);
            assert(pushed.drop_first() =~= entries.drop_first().push(p));
            assert(map_find(pushed, key) == map_find(pushed.drop_first(), key));
            assert(map_find(entries, key) == map_find(entries.drop_first(), key));
        }
    }
}

/// The value `key` maps to in a concrete entry vector: with one obtained
/// snapshot in hand, this is the fully specified map read. Exact whenever
/// the key type's `==` agrees with logical equality.
pub fn map_get<K: PartialEq, V>(entries: &Vec<(K, Arc<V>)>, key: &K) -> (r: Option<Arc<V>>)
    ensures
        obeys_concrete_eq::<K>() ==> r == map_find(entries@, *key),
{
    let ghost all = entries@;
    let ghost target = *key;
    proof {
        assert(all.subrange(0, all.len() as int) =~= all);
    }
    let mut i: usize = 0;
    while i < entries.len()
        invariant
            i <= entries.len(),
            all == entries@,
            target == *key,
            obeys_concrete_eq::<K>() ==> map_find(all, target) == map_find(
                all.subrange(i as int, all.len() as int),
                target,
            ),
        decreases entries.len() - i,
    {
        let hit = entries[i].0 == *key;
        if hit {
            let out = arc_clone(&entries[i].1);
            proof {
                reveal(vstd::laws_eq::obeys_concrete_eq);
                if obeys_concrete_eq::<K>() {
                    let sub = all.subrange(i as int, all.len() as int);
                    assert(hit == all[i as int].0.eq_spec(&target));
                    assert(all[i as int].0 == target);
                    assert(sub[0] == all[i as int]);
                    assert(map_find(sub, target) == Some(sub[0].1));
                    assert(map_find(all, target) == Some(all[i as int].1));
                }
            }
            return Some(out);
        }
        proof {
            reveal(vstd::laws_eq::obeys_concrete_eq);
            if obeys_concrete_eq::<K>() {
                let sub = all.subrange(i as int, all.len() as int);
                assert(hit == all[i as int].0.eq_spec(&target));
                assert(!(all[i as int].0 == target));
                assert(sub[0] == all[i as int]);
                assert(map_find(sub, target) == map_find(sub.drop_first(), target));
                assert(sub.drop_first() =~= all.subrange(i as int + 1, all.len() as int));
            }
        }
        i += 1;
    }
    proof {
        if obeys_concrete_eq::<K>() {
            assert(all.subrange(all.len() as int, all.len() as int).len() == 0);
        }
    }
    None
}

/// Whether a concrete item vector holds `val`: with one obtained snapshot
/// in hand, this is the fully specified set read. Exact whenever the item
/// type's `==` agrees with logical equality.
pub fn set_member<T: PartialEq>(items: &Vec<T>, val: &T) -> (r: bool)
    ensures
        obeys_concrete_eq::<T>() ==> r == items@.contains(*val),
{
    let ghost target = *val;
    let mut i: usize = 0;
    while i < items.len()
        invariant
            i <= items.len(),
            target == *val,
            obeys_concrete_eq::<T>() ==> !items@.subrange(0, i as int).contains(target),
        decreases items.len() - i,
    {
        let hit = items[i] == *val;
        if hit {
            proof {
                reveal(vstd::laws_eq::obeys_concrete_eq);
                if obeys_concrete_eq::<T>() {
                    assert(hit == items@[i as int].eq_spec(&target));
                    assert(items@[i as int] == target);
                    assert(items@.contains(target));
                }
            }
            return true;
        }
        proof {
            reveal(vstd::laws_eq::obeys_concrete_eq);
            if obeys_concrete_eq::<T>() {
                assert(hit == items@[i as int].eq_spec(&target));
                assert(!(items@[i as int] == target));
                assert(items@.subrange(0, i as int + 1) =~= items@.subrange(
                    0,
                    i as int,
                ).push(items@[i as int]));
            }
        }
        i += 1;
    }
    proof {
        if obeys_concrete_eq::<T>() {
            assert(items@.subrange(0, items@.len() as int) =~= items@);
            assert(!items@.contains(target));
        }
    }
    false
}

/// A read-only view of the current snapshot's single value.
#[verifier::reject_recursive_types(E)]
#[verifier::reject_recursive_types(T)]
pub struct UpdatingObject<E, T> {
    backing: Holder<E, Arc<T>>,
}

impl<E, T> AccessorView<E, Arc<T>> for UpdatingObject<E, T> {
    closed spec fn inv(&self, s: Arc<Snapshot<E, Arc<T>>>) -> bool {
        self.backing.inv(s)
    }

    fn from_holder(h: Holder<E, Arc<T>>) -> (r: Self)
        ensures
            forall|s: Arc<Snapshot<E, Arc<T>>>| #[trigger] r.inv(s) <==> h.inv(s),
    {
        UpdatingObject { backing: h }
    }
}

impl<E, T> UpdatingObject<E, T> {
    /// A view over `backing`.
    pub fn new(backing: Holder<E, Arc<T>>) -> (r: UpdatingObject<E, T>)
        ensures
            forall|s: Arc<Snapshot<E, Arc<T>>>| #[trigger] r.inv(s) <==> backing.inv(s),
    {
        UpdatingObject { backing }
    }

    /// One complete snapshot obtained from the holder, satisfying its
    /// invariant: the concrete witness behind every read of this view.
    pub fn snapshot(&self) -> (s: Arc<Snapshot<E, Arc<T>>>)
        ensures
            self.inv(s),
    {
        let snap = self.backing.snapshot();
        proof {
            assert(self.inv(snap));
        }
        snap
    }

    /// The current value: the one carried by the holder's current snapshot.
    pub fn get_current(&self) -> (r: Arc<T>)
        ensures
            exists|s: Arc<Snapshot<E, Arc<T>>>| #[trigger] self.inv(s) && r == (*s).value,
    {
        let snap = self.snapshot();
        arc_clone(&snap.value)
    }
}

/// A read-only set view of the current snapshot.
#[verifier::reject_recursive_types(E)]
#[verifier::reject_recursive_types(T)]
pub struct UpdatingSet<E, T> {
    backing: Holder<E, Vec<T>>,
}

impl<E, T> AccessorView<E, Vec<T>> for UpdatingSet<E, T> {
    closed spec fn inv(&self, s: Arc<Snapshot<E, Vec<T>>>) -> bool {
        self.backing.inv(s)
    }

    fn from_holder(h: Holder<E, Vec<T>>) -> (r: Self)
        ensures
            forall|s: Arc<Snapshot<E, Vec<T>>>| #[trigger] r.inv(s) <==> h.inv(s),
    {
        UpdatingSet { backing: h }
    }
}

impl<E, T> UpdatingSet<E, T> {
    /// A view over `backing`.
    pub fn new(backing: Holder<E, Vec<T>>) -> (r: UpdatingSet<E, T>)
        ensures
            forall|s: Arc<Snapshot<E, Vec<T>>>| #[trigger] r.inv(s) <==> backing.inv(s),
    {
        UpdatingSet { backing }
    }

    /// One complete snapshot obtained from the holder, satisfying its
    /// invariant: the concrete witness behind every read of this view.
    pub fn snapshot(&self) -> (s: Arc<Snapshot<E, Vec<T>>>)
        ensures
            self.inv(s),
    {
        let snap = self.backing.snapshot();
        proof {
            assert(self.inv(snap));
        }
        snap
    }

    /// Whether the current snapshot's set holds `val`: answered from one
    /// complete snapshot satisfying the holder's invariant.
    pub fn contains(&self, val: &T) -> (r: bool) where T: PartialEq
        ensures
            exists|s: Arc<Snapshot<E, Vec<T>>>|
                {
                    &&& #[trigger] self.inv(s)
                    &&& obeys_concrete_eq::<T>() ==> r == (*s).value@.contains(*val)
                },
    {
        let snap = self.snapshot();
        set_member(&snap.value, val)
    }

    /// The number of items in the current snapshot's set.
    pub fn len(&self) -> (n: usize)
        ensures
            exists|s: Arc<Snapshot<E, Vec<T>>>|
                #[trigger] self.inv(s) && n == (*s).value@.len(),
    {
        let snap = self.snapshot();
        snap.value.len()
    }

    /// Whether the current snapshot's set is empty.
    pub fn is_empty(&self) -> (r: bool)
        ensures
            exists|s: Arc<Snapshot<E, Vec<T>>>|
                #[trigger] self.inv(s) && r == ((*s).value@.len() == 0),
    {
        let snap = self.snapshot();
        snap.value.len() == 0
    }
}

/// A read-only map view of the current snapshot. Values are held behind
/// shared pointers, so `get` hands out the stored value without copying it.
#[verifier::reject_recursive_types(E)]
#[verifier::reject_recursive_types(K)]
#[verifier::reject_recursive_types(V)]
pub struct UpdatingMap<E, K, V> {
    backing: Holder<E, Vec<(K, Arc<V>)>>,
}

impl<E, K, V> AccessorView<E, Vec<(K, Arc<V>)>> for UpdatingMap<E, K, V> {
    closed spec fn inv(&self, s: Arc<Snapshot<E, Vec<(K, Arc<V>)>>>) -> bool {
        self.backing.inv(s)
    }

    fn from_holder(h: Holder<E, Vec<(K, Arc<V>)>>) -> (r: Self)
        ensures
            forall|s: Arc<Snapshot<E, Vec<(K, Arc<V>)>>>| #[trigger] r.inv(s) <==> h.inv(s),
    {
        UpdatingMap { backing: h }
    }
}

impl<E, K, V> UpdatingMap<E, K, V> {
    /// A view over `backing`.
    pub fn new(backing: Holder<E, Vec<(K, Arc<V>)>>) -> (r: UpdatingMap<E, K, V>)
        ensures
            forall|s: Arc<Snapshot<E, Vec<(K, Arc<V>)>>>| #[trigger] r.inv(s) <==> backing.inv(s),
    {
        UpdatingMap { backing }
    }

    /// One complete snapshot obtained from the holder, satisfying its
    /// invariant: the concrete witness behind every read of this view.
    pub fn snapshot(&self) -> (s: Arc<Snapshot<E, Vec<(K, Arc<V>)>>>)
        ensures
            self.inv(s),
    {
        let snap = self.backing.snapshot();
        proof {
            assert(self.inv(snap));
        }
        snap
    }

    /// The value `key` maps to in the current snapshot, if any: answered
    /// from one complete snapshot satisfying the holder's invariant.
    pub fn get(&self, key: &K) -> (r: Option<Arc<V>>) where K: PartialEq
        ensures
            exists|s: Arc<Snapshot<E, Vec<(K, Arc<V>)>>>|
                {
                    &&& #[trigger] self.inv(s)
                    &&& obeys_concrete_eq::<K>() ==> r == map_find((*s).value@, *key)
                },
    {
        let snap = self.snapshot();
        map_get(&snap.value, key)
    }

    /// The number of entries in the current snapshot's map.
    pub fn len(&self) -> (n: usize)
        ensures
            exists|s: Arc<Snapshot<E, Vec<(K, Arc<V>)>>>|
                #[trigger] self.inv(s) && n == (*s).value@.len(),
    {
        let snap = self.snapshot();
        snap.value.len()
    }

    /// Whether the current snapshot's map is empty.
    pub fn is_empty(&self) -> (r: bool)
        ensures
            exists|s: Arc<Snapshot<E, Vec<(K, Arc<V>)>>>|
                #[trigger] self.inv(s) && r == ((*s).value@.len() == 0),
    {
        let snap = self.snapshot();
        snap.value.len() == 0
    }
}

} // verus!
