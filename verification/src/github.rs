//! The decision and decoding logic of the Git-hosted-file source.
//!
//! The source versions a file by the latest commit touching it and receives
//! the file's contents base64-encoded. The HTTP calls live with the host
//! application; what the answers mean is decided here.

use vstd::prelude::*;

use crate::util::Error;

verus! {

/// An error from base64 decoding, as the base64 crate reports it.
#[verifier::external_type_specification]
#[verifier::external_body]
pub struct ExDecodeError(base64::DecodeError);

/// What base64 decoding yields on a text: the decoded bytes, or nothing
/// when the text is not valid standard-alphabet base64.
pub uninterp spec fn base64_decoded(s: Seq<char>) -> Option<Seq<u8>>;

/// Relies on base64::decode: standard-alphabet base64 decoding, a pure
/// function of the input text.
#[verifier::external_body]
fn base64_decode(s: &str) -> (r: Result<Vec<u8>, base64::DecodeError>)
    ensures
        match r {
            Ok(v) => base64_decoded(s@) == Some(v@),
            Err(_) => base64_decoded(s@) is None,
        },
{
    base64::decode(s)
}

/// One content record turned into a fetch payload: the file's blob
/// identifier paired with its decoded bytes. A record without a content
/// field is an empty file; one whose content field is not valid base64 is
/// an error, and nothing else is.
pub fn decode_github_content(sha: String, content: Option<String>) -> (r: Result<
    (String, Vec<u8>),
    Error,
>)
    ensures
        match content {
            None => r matches Ok(p) && p.0 == sha && p.1@ == Seq::<u8>::empty(),
            Some(c) => match base64_decoded(c@) {
                Some(bytes) => r matches Ok(p) && p.0 == sha && p.1@ == bytes,
                None => r is Err,
            },
        },
{
    match content {
        None => Ok((sha, Vec::new())),
        Some(c) => match base64_decode(c.as_str()) {
            Ok(bytes) => Ok((sha, bytes)),
            Err(_) => Err(Error::new("File content was not valid base64")),
        },
    }
}

/// Whether a conditional fetch must re-download the file: yes exactly when
/// the latest commit touching it differs from the known version.
pub fn github_needs_fetch(version: &String, last_commit: &String) -> (r: bool)
    ensures
        r == (version@ != last_commit@),
{
    !(*version == *last_commit)
}

} // verus!
