//! The immutable unit of atomic visibility: one observed state of the
//! mirrored dataset, as an optional version token paired with a typed value.

use vstd::prelude::*;

verus! {

/// One observable state of the mirrored dataset.
///
/// `version` is the opaque change-detection token the source reported, or
/// `None` when the value did not come with one (a configured fallback, or a
/// source that cannot version its data). The pair is immutable once built;
/// a refresh replaces the whole snapshot, never a part of it.
pub struct Snapshot<E, T> {
    pub version: Option<E>,
    pub value: T,
}

impl<E, T> Snapshot<E, T> {
    /// Pairs a version token with the dataset value it describes.
    pub fn new(version: Option<E>, value: T) -> (s: Snapshot<E, T>)
        ensures
            s.version == version,
            s.value == value,
    {
        Snapshot { version, value }
    }

    /// True when the snapshot carries a version token usable for a
    /// conditional fetch.
    pub fn has_version(&self) -> (r: bool)
        ensures
            r == self.version is Some,
    {
        self.version.is_some()
    }
}

} // verus!
