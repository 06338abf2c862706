//! A read-heavy in-memory mirror of an externally owned dataset.
//!
//! The cache engine fetches raw data from a pluggable source, turns it into
//! a typed collection through a pluggable processor, and publishes each
//! successful result as an immutable [`snapshot::Snapshot`] that any number
//! of readers observe atomically through an accessor view. A host-driven
//! scheduler repeats the cycle on a fixed period; "unchanged" answers and
//! failures leave the published snapshot untouched, so readers always see
//! the last good data.
//!
//! What is proved, and where:
//! - the refresh protocol itself is a pure decision core ([`cycle`]) with
//!   exact contracts: an "unchanged" or failed cycle preserves the snapshot,
//!   a successful one replaces it wholesale;
//! - the [`updater`] drives real sources and processors through that core,
//!   and its contract says exactly which of those outcomes happened;
//! - the [`holder`] publishes snapshots through a verified reader-writer
//!   lock around one shared pointer, with an invariant fixed at
//!   construction: every snapshot a reader can ever obtain satisfies it;
//! - [`cache::Builder::build`] validates the configuration with one error
//!   per missing field, installs real data or the configured fallback as the
//!   first snapshot (never anything else), cannot fail once a fallback is
//!   configured, and never leaks a half-initialized cache;
//! - the accessor views ([`collections`]) answer every read from one
//!   complete snapshot satisfying the holder's invariant, with no "not
//!   running" state to observe.

pub mod cache;
pub mod collections;
pub mod cycle;
pub mod gcs;
pub mod github;
pub mod holder;
pub mod http;
pub mod metrics;
pub mod processors;
pub mod s3;
pub mod snapshot;
pub mod sources;
pub mod updater;
pub mod util;
