//! The metrics sink contract, and the clock the engine stamps it with.
//!
//! A metrics sink is an external collaborator: calls are synchronous and
//! best-effort, and the engine promises nothing about what a sink does with
//! them. Timestamps are epoch milliseconds; durations are milliseconds.

use vstd::prelude::*;

use crate::util::Error;

verus! {

/// Receives one call per notable event of a refresh cycle. Implemented by
/// the host application; invoked only from the single writer, so a stateful
/// sink needs no synchronization against concurrent refreshes.
pub trait Metrics<E> {
    /// A cycle fetched and processed new data.
    fn update(&mut self, new_version: &Option<E>, fetch_millis: u64, process_millis: u64);

    /// The wall-clock instant of the latest successful update.
    fn last_successful_update(&mut self, epoch_millis: i64);

    /// A cycle found the source unchanged; the check took this long.
    fn check_no_update(&mut self, check_millis: u64);

    /// The wall-clock instant of the latest successful check.
    fn last_successful_check(&mut self, epoch_millis: i64);

    /// Construction fell back to the configured local value.
    fn fallback_invoked(&mut self);

    /// A cycle's fetch step failed.
    fn fetch_error(&mut self, err: &Error);

    /// A cycle's process step failed.
    fn process_error(&mut self, err: &Error);
}

/// The current wall-clock time in milliseconds since the Unix epoch,
/// negative for a clock set before it. Relies on chrono's
/// `From<SystemTime>` conversion, which handles a pre-epoch clock without
/// panicking, converted through `timestamp_millis`; nothing is promised of
/// the result, since it depends on the clock.
#[verifier::external_body]
pub fn now_epoch_millis() -> i64 {
    chrono::DateTime::<chrono::Utc>::from(std::time::SystemTime::now()).timestamp_millis()
}

/// The milliseconds elapsed from `start` to `end`, saturating at zero when
/// the clock moved backwards and at `u64::MAX` on overflow.
pub fn elapsed_millis(start: i64, end: i64) -> (r: u64)
    ensures
        end >= start ==> r == if end - start <= u64::MAX {
            (end - start) as u64
        } else {
            u64::MAX
        },
        end < start ==> r == 0,
{
    if end < start {
        0
    } else {
        let wide: i128 = (end as i128) - (start as i128);
        if wide > u64::MAX as i128 {
            u64::MAX
        } else {
            wide as u64
        }
    }
}

} // verus!
