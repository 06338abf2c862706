//! The source adapter contract, and the decision logic of the local-file
//! source.
//!
//! A source produces raw data and an optional version token. The engine
//! never interprets tokens; it stores the one the source reported and hands
//! it back on the next conditional fetch. Concrete adapters perform I/O and
//! so live with the host application; the change-detection decisions they
//! need are plain functions here.

use vstd::prelude::*;

use crate::util::Error;

verus! {

/// Produces the raw dataset. `E` is the source's version token, `S` the raw
/// payload handed to the processor.
///
/// An external collaborator: both calls may do I/O and fail, and the engine
/// assumes nothing about their outcomes. `fetch` returns the payload
/// unconditionally; `fetch_if_newer` returns `None` when nothing newer than
/// `version` exists, by whatever notion of change the source defines.
/// Both must be safely callable repeatedly.
pub trait ConfigSource<E, S> {
    fn fetch(&self) -> Result<(Option<E>, S), Error>;

    fn fetch_if_newer(&self, version: &E) -> Result<Option<(Option<E>, S)>, Error>;
}

/// A source that mirrors one local file, versioned by its modification time
/// in milliseconds since the Unix epoch. Opening and reading the file is the
/// host application's part; the change-detection rule lives here.
pub struct LocalFileConfigSource {
    path: String,
}

impl LocalFileConfigSource {
    /// The path of the mirrored file.
    pub closed spec fn spec_path(&self) -> Seq<char> {
        self.path@
    }

    /// A source for the file at `path`.
    pub fn new(path: &str) -> (s: LocalFileConfigSource)
        ensures
            s.spec_path() == path@,
    {
        LocalFileConfigSource { path: path.to_owned() }
    }

    /// The path of the mirrored file.
    pub fn path(&self) -> (p: &str)
        ensures
            p@ == self.spec_path(),
    {
        self.path.as_str()
    }

    /// Whether a conditional fetch must return the file's contents: yes
    /// exactly when the file's modification time is strictly newer than the
    /// known version, or when the platform reports no modification time (in
    /// which case every fetch is unconditional).
    pub fn should_refetch(version: u128, mtime: Option<u128>) -> (r: bool)
        ensures
            r == match mtime {
                Some(m) => version < m,
                None => true,
            },
    {
        match mtime {
            Some(m) => version < m,
            None => true,
        }
    }
}

} // verus!
