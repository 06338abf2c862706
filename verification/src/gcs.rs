//! The decision logic of the cloud-storage object source.
//!
//! The source versions an object by the `updated` token its metadata
//! reports. Talking to the storage service needs its SDK and lives with the
//! host application; the change-detection rule is here.

use vstd::prelude::*;

verus! {

/// Whether a conditional fetch must re-download the object: yes exactly
/// when the object's current `updated` token differs from the known
/// version.
pub fn gcs_needs_fetch(version: &String, updated: &String) -> (r: bool)
    ensures
        r == (version@ != updated@),
{
    !(*version == *updated)
}

} // verus!
