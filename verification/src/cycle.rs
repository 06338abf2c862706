//! The conditional-refresh protocol, as a pure decision core.
//!
//! One refresh cycle fetches raw data (unconditionally on the first run,
//! conditionally against the last known version afterwards) and processes it
//! into a typed value. The outcomes of those two external steps are folded
//! into a [`CycleInput`]; the functions here say, exactly, what each input
//! does to the current snapshot. The updater drives real sources and
//! processors through this core, so the protocol's guarantees are stated and
//! proved once, over plain values.

use vstd::prelude::*;

use crate::snapshot::Snapshot;
use crate::util::Error;

verus! {

/// The combined outcome of one cycle's fetch and process steps.
pub enum CycleInput<E, T> {
    /// The source could not be reached or answered with an error.
    FetchFailed(Error),
    /// The source reported that nothing newer than the known version exists.
    Unchanged,
    /// The source produced a payload but the processor rejected it.
    ProcessFailed(Error),
    /// The source produced a payload and the processor turned it into a
    /// typed value, together with the version token the source reported.
    Processed(Option<E>, T),
}

/// Whether the cycle replaces the current snapshot.
pub open spec fn cycle_installs<E, T>(input: CycleInput<E, T>) -> bool {
    input is Processed
}

/// The snapshot current after a cycle with the given input: a freshly
/// processed value replaces the snapshot wholesale; every other outcome
/// leaves the previous snapshot in place.
pub open spec fn next_snapshot<E, T>(
    prev: Snapshot<E, T>,
    input: CycleInput<E, T>,
) -> Snapshot<E, T> {
    match input {
        CycleInput::Processed(version, value) => Snapshot { version, value },
        _ => prev,
    }
}

/// The snapshot current after a whole run of cycles, applied oldest first.
pub open spec fn run_cycles<E, T>(
    prev: Snapshot<E, T>,
    inputs: Seq<CycleInput<E, T>>,
) -> Snapshot<E, T>
    decreases inputs.len(),
{
    if inputs.len() == 0 {
        prev
    } else {
        run_cycles(next_snapshot(prev, inputs[0]), inputs.drop_first())
    }
}

/// Change-detection idempotence: however many cycles run, if the source
/// reported "unchanged" on every one of them, the snapshot is exactly the
/// one the run started from.
pub proof fn lemma_unchanged_cycles_preserve_snapshot<E, T>(
    prev: Snapshot<E, T>,
    inputs: Seq<CycleInput<E, T>>,
)
    requires
        forall|i: int| 0 <= i < inputs.len() ==> inputs[i] is Unchanged,
    ensures
        run_cycles(prev, inputs) == prev,
    decreases inputs.len(),
{
    if inputs.len() > 0 {
        lemma_unchanged_cycles_preserve_snapshot(prev, inputs.drop_first());
    }
}

/// Failed cycles never touch the snapshot: a run in which no cycle both
/// fetched and processed successfully ends with the snapshot it started
/// from, whatever mixture of fetch errors, process errors and "unchanged"
/// answers occurred.
pub proof fn lemma_failed_cycles_preserve_snapshot<E, T>(
    prev: Snapshot<E, T>,
    inputs: Seq<CycleInput<E, T>>,
)
    requires
        forall|i: int| 0 <= i < inputs.len() ==> !cycle_installs(inputs[i]),
    ensures
        run_cycles(prev, inputs) == prev,
    decreases inputs.len(),
{
    if inputs.len() > 0 {
        lemma_failed_cycles_preserve_snapshot(prev, inputs.drop_first());
    }
}

/// Wholesale replacement: the snapshot a successful cycle installs carries
/// exactly the newly processed value and the newly reported version. It does
/// not depend on the snapshot it replaces in any way — no entry of the old
/// value survives into the new one.
pub proof fn lemma_install_is_wholesale<E, T>(
    prev_a: Snapshot<E, T>,
    prev_b: Snapshot<E, T>,
    version: Option<E>,
    value: T,
)
    ensures
        next_snapshot(prev_a, CycleInput::Processed(version, value)) == next_snapshot(
            prev_b,
            CycleInput::Processed(version, value),
        ),
        next_snapshot(prev_a, CycleInput::Processed(version, value)).value == value,
        next_snapshot(prev_a, CycleInput::Processed(version, value)).version == version,
{
}

} // verus!
