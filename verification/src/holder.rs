//! The shared, swappable reference to the current snapshot.
//!
//! A holder is a narrow reader-writer lock around a shared pointer to the
//! current [`Snapshot`]. Readers acquire the lock only long enough to clone
//! the pointer, then read the snapshot with no lock held; the single writer
//! replaces the pointer in one step. A reader therefore always observes one
//! complete snapshot — the one before a given swap or the one after, never a
//! mixture — and, because a holder is created already holding a snapshot,
//! there is no observable "not yet initialized" state.
//!
//! Every holder carries an invariant, fixed at construction, that each
//! stored snapshot is proved to satisfy before it can be published and that
//! every reader gets back with each snapshot it obtains.

use vstd::prelude::*;

use std::sync::Arc;
use vstd::rwlock::RwLock;

use crate::snapshot::Snapshot;

verus! {

/// Clones a shared pointer.
/// Relies on std's `Arc::clone`: the clone is another pointer to the same
/// allocation, so it carries the same value.
#[verifier::external_body]
pub fn arc_clone<T>(a: &Arc<T>) -> (r: Arc<T>)
    ensures
        r == *a,
{
    Arc::clone(a)
}

/// An invariant over the snapshots a holder may publish.
pub type SnapshotPred<E, T> = spec_fn(Arc<Snapshot<E, T>>) -> bool;

/// The shared, swappable reference to the current snapshot. Cheap to
/// duplicate; all duplicates publish and observe the same snapshot.
#[verifier::reject_recursive_types(E)]
#[verifier::reject_recursive_types(T)]
pub struct Holder<E, T> {
    lock: Arc<RwLock<Arc<Snapshot<E, T>>, SnapshotPred<E, T>>>,
}

impl<E, T> Holder<E, T> {
    /// The invariant every snapshot observable through this holder
    /// satisfies.
    pub closed spec fn inv(&self, s: Arc<Snapshot<E, T>>) -> bool {
        self.lock.inv(s)
    }

    /// Creates a holder already containing `initial`, with `inv` as the
    /// invariant it will enforce on every snapshot it ever publishes.
    pub fn new(initial: Arc<Snapshot<E, T>>, Ghost(inv): Ghost<SnapshotPred<E, T>>) -> (h: Holder<
        E,
        T,
    >)
        requires
            inv(initial),
        ensures
            forall|s: Arc<Snapshot<E, T>>| h.inv(s) <==> inv(s),
    {
        Holder { lock: Arc::new(RwLock::new(initial, Ghost(inv))) }
    }

    /// Another handle on the same holder.
    pub fn duplicate(&self) -> (h: Holder<E, T>)
        ensures
            h == *self,
    {
        Holder { lock: arc_clone(&self.lock) }
    }

    /// The current snapshot. Acquires the lock only to clone the shared
    /// pointer; the caller reads the snapshot with no lock held.
    pub fn snapshot(&self) -> (s: Arc<Snapshot<E, T>>)
        ensures
            self.inv(s),
    {
        let handle = self.lock.acquire_read();
        let s = arc_clone(handle.borrow());
        handle.release_read();
        s
    }

    /// Publishes `s` as the current snapshot, replacing the previous one in
    /// a single swap of the shared pointer.
    pub fn store(&self, s: Arc<Snapshot<E, T>>)
        requires
            self.inv(s),
    {
        let (_previous, handle) = self.lock.acquire_write();
        handle.release_write(s);
    }
}

} // verus!
