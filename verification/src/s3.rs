//! The decision logic of the object-store source.
//!
//! The source versions an object by its last-modified time in epoch
//! milliseconds and detects change with a conditional `GetObject`
//! (`If-Modified-Since`). Talking to the store needs its SDK and lives with
//! the host application; what an answer's status means for the refresh
//! protocol is decided here, with the same convention as the HTTP source.

use vstd::prelude::*;

use crate::http::http_version_of;
use crate::util::Error;

verus! {

/// Interprets the answer to a conditional object fetch: a success status
/// yields the object's new version, "not modified" yields no change, and
/// everything else is an error.
pub fn interpret_s3_fetch_if_newer(status: u16, last_modified_millis: Option<u64>) -> (r:
    Result<Option<u64>, Error>)
    ensures
        200 <= status < 300 ==> (r matches Ok(o) && o == Some(
            http_version_of(last_modified_millis),
        )),
        status == 304 ==> (r matches Ok(o) && o is None),
        !(200 <= status < 300) && status != 304 ==> r is Err,
{
    if 200 <= status && status < 300 {
        match last_modified_millis {
            Some(m) => Ok(Some(m)),
            None => Ok(Some(0)),
        }
    } else if status == 304 {
        Ok(None)
    } else {
        Err(Error::new("Fetch failed with a non-success status"))
    }
}

} // verus!
