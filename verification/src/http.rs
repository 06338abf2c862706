//! The decision logic of the HTTP source.
//!
//! The source versions a resource by its `Last-Modified` time in epoch
//! milliseconds and detects change with `If-Modified-Since`. Sending the
//! requests lives with the host application; reading the header's date and
//! deciding what a response's status means for the refresh protocol happen
//! here.

use vstd::prelude::*;

use crate::util::Error;

verus! {

/// What an HTTP date text denotes: its time in milliseconds since the Unix
/// epoch, or nothing when the text is not a valid HTTP date.
pub uninterp spec fn http_date_millis(s: Seq<char>) -> Option<u64>;

/// Relies on httpdate's `parse_http_date`: a pure function of the text,
/// converted to epoch milliseconds. HTTP dates lie between 1970 and 9999,
/// so the conversion fits.
#[verifier::external_body]
fn parse_http_date_millis(s: &str) -> (r: Option<u64>)
    ensures
        r == http_date_millis(s@),
{
    match httpdate::parse_http_date(s) {
        Ok(t) => match t.duration_since(std::time::UNIX_EPOCH) {
            Ok(d) => u64::try_from(d.as_millis()).ok(),
            Err(_) => None,
        },
        Err(_) => None,
    }
}

/// The version a `Last-Modified` header carries: its date in epoch
/// milliseconds, or nothing when the header is absent or not a valid HTTP
/// date.
pub fn http_version_from_header(header: Option<&str>) -> (r: Option<u64>)
    ensures
        r == match header {
            Some(h) => http_date_millis(h@),
            None => None::<u64>,
        },
{
    match header {
        Some(h) => parse_http_date_millis(h),
        None => None,
    }
}

/// The version an HTTP response carries: the `Last-Modified` time in epoch
/// milliseconds, or zero when the header is absent.
pub open spec fn http_version_of(last_modified_millis: Option<u64>) -> u64 {
    match last_modified_millis {
        Some(m) => m,
        None => 0,
    }
}

/// Interprets the response to an unconditional fetch: any success status
/// yields the resource's version; everything else is an error.
pub fn interpret_http_fetch(status: u16, last_modified_millis: Option<u64>) -> (r: Result<
    u64,
    Error,
>)
    ensures
        200 <= status < 300 ==> (r matches Ok(v) && v == http_version_of(last_modified_millis)),
        !(200 <= status < 300) ==> r is Err,
{
    if 200 <= status && status < 300 {
        match last_modified_millis {
            Some(m) => Ok(m),
            None => Ok(0),
        }
    } else {
        Err(Error::new("Fetch failed with a non-success status"))
    }
}

/// Interprets the response to a conditional fetch: a success status yields
/// the new version, "not modified" yields no change, and everything else is
/// an error.
pub fn interpret_http_fetch_if_newer(status: u16, last_modified_millis: Option<u64>) -> (r:
    Result<Option<u64>, Error>)
    ensures
        200 <= status < 300 ==> (r matches Ok(o) && o == Some(
            http_version_of(last_modified_millis),
        )),
        status == 304 ==> (r matches Ok(o) && o is None),
        !(200 <= status < 300) && status != 304 ==> r is Err,
{
    if 200 <= status && status < 300 {
        match last_modified_millis {
            Some(m) => Ok(Some(m)),
            None => Ok(Some(0)),
        }
    } else if status == 304 {
        Ok(None)
    } else {
        Err(Error::new("Fetch failed with a non-success status"))
    }
}

} // verus!
