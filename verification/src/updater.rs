//! One fetch → process → swap cycle, bound to a concrete source, processor
//! and holder.
//!
//! The updater is the holder's single writer. It keeps its own pointer to
//! the snapshot it last published; under the single-writer discipline that
//! pointer and the holder's content are the same snapshot, so the "last
//! known version" the refresh protocol consults is read from it directly.

use vstd::prelude::*;

use std::marker::PhantomData;
use std::sync::Arc;

use crate::cycle::{cycle_installs, next_snapshot, CycleInput};
use crate::holder::{arc_clone, Holder};
use crate::metrics::{elapsed_millis, now_epoch_millis, Metrics};
use crate::processors::RawConfigProcessor;
use crate::snapshot::Snapshot;
use crate::sources::ConfigSource;
use crate::util::Error;

verus! {

/// Drives the conditional-refresh protocol of `crate::cycle` against a real
/// source and processor, publishing each successful result to the holder.
#[verifier::reject_recursive_types(E)]
#[verifier::reject_recursive_types(T)]
pub struct Updater<S, T, E, C, P, M> {
    holder: Holder<E, T>,
    source: C,
    processor: P,
    metrics: Option<M>,
    current: Arc<Snapshot<E, T>>,
    phantom: PhantomData<S>,
}

impl<
    S,
    T,
    E,
    C: ConfigSource<E, S>,
    P: RawConfigProcessor<S, T>,
    M: Metrics<E>,
> Updater<S, T, E, C, P, M> {
    /// The snapshot this updater last published.
    pub closed spec fn current_snapshot(&self) -> Arc<Snapshot<E, T>> {
        self.current
    }

    /// The holder this updater publishes to.
    pub closed spec fn holder_of(&self) -> Holder<E, T> {
        self.holder
    }

    /// Whether the updater's processor guarantees `v`.
    pub closed spec fn processor_good(&self, v: &T) -> bool {
        self.processor.good(v)
    }

    /// The updater is wired consistently: everything its processor
    /// guarantees is enough to publish, and the snapshot it believes current
    /// is one the holder could have published.
    pub closed spec fn wf(&self) -> bool {
        &&& forall|s: Arc<Snapshot<E, T>>|
            self.processor.good(&(*s).value) ==> #[trigger] self.holder.inv(s)
        &&& self.holder.inv(self.current)
    }

    /// Binds a source, a processor and an optional metrics sink to the
    /// holder they will feed, starting from the snapshot `current` that the
    /// holder was created with.
    pub fn new(
        holder: Holder<E, T>,
        source: C,
        processor: P,
        metrics: Option<M>,
        current: Arc<Snapshot<E, T>>,
    ) -> (u: Updater<S, T, E, C, P, M>)
        requires
            forall|s: Arc<Snapshot<E, T>>|
                processor.good(&(*s).value) ==> #[trigger] holder.inv(s),
            holder.inv(current),
        ensures
            u.wf(),
            u.current_snapshot() == current,
            u.holder_of() == holder,
            forall|v: &T| #[trigger] u.processor_good(v) == processor.good(v),
    {
        Updater { holder, source, processor, metrics, current, phantom: PhantomData }
    }

    /// The snapshot this updater last published.
    pub fn current(&self) -> (s: Arc<Snapshot<E, T>>)
        ensures
            s == self.current_snapshot(),
    {
        arc_clone(&self.current)
    }

    /// One cycle of the conditional-refresh protocol, exactly as
    /// `crate::cycle::next_snapshot` describes it: consult the last known
    /// version; fetch conditionally if one is known, unconditionally
    /// otherwise; on new data, process it and publish the result in a single
    /// swap; on "no change" or on any failure, leave the published snapshot
    /// untouched. Returns the newly published snapshot, `None` for "no
    /// change", or the error the source or processor reported.
    pub fn update(&mut self) -> (r: Result<Option<Arc<Snapshot<E, T>>>, Error>)
        requires
            old(self).wf(),
        ensures
            final(self).wf(),
            final(self).holder_of() == old(self).holder_of(),
            forall|v: &T|
                #[trigger] final(self).processor_good(v) == old(self).processor_good(v),
            match r {
                Ok(Some(s)) => {
                    &&& final(self).current_snapshot() == s
                    &&& old(self).processor_good(&(*s).value)
                    &&& final(self).holder_of().inv(s)
                },
                Ok(None) => final(self).current_snapshot() == old(self).current_snapshot(),
                Err(_) => final(self).current_snapshot() == old(self).current_snapshot(),
            },
            exists|input: CycleInput<E, T>|
                {
                    &&& *final(self).current_snapshot() == #[trigger] next_snapshot(
                        *old(self).current_snapshot(),
                        input,
                    )
                    &&& match r {
                        Ok(Some(_)) => cycle_installs(input),
                        Ok(None) => input is Unchanged,
                        Err(e) => input == CycleInput::<E, T>::FetchFailed(e) || input
                            == CycleInput::<E, T>::ProcessFailed(e),
                    }
                },
    {
        let prev = arc_clone(&self.current);

        let fetch_start = now_epoch_millis();
        let fetched: Result<Option<(Option<E>, S)>, Error> = match &prev.version {
            Some(v) => self.source.fetch_if_newer(v),
            None => match self.source.fetch() {
                Ok(p) => Ok(Some(p)),
                Err(e) => Err(e),
            },
        };
        let fetch_end = now_epoch_millis();
        let fetch_ms = elapsed_millis(fetch_start, fetch_end);

        match fetched {
            Err(e) => {
                if let Some(m) = &mut self.metrics {
                    m.fetch_error(&e);
                }
                proof {
                    let input = CycleInput::<E, T>::FetchFailed(e);
                    assert(*self.current == next_snapshot(*self.current, input));
                }
                Err(e)
            },
            Ok(None) => {
                if let Some(m) = &mut self.metrics {
                    m.last_successful_check(fetch_end);
                    m.check_no_update(fetch_ms);
                }
                proof {
                    let input = CycleInput::<E, T>::Unchanged;
                    assert(*self.current == next_snapshot(*self.current, input));
                }
                Ok(None)
            },
            Ok(Some((version, raw))) => {
                let process_start = now_epoch_millis();
                let processed = self.processor.process(raw);
                let process_end = now_epoch_millis();
                let process_ms = elapsed_millis(process_start, process_end);

                match processed {
                    Err(e) => {
                        if let Some(m) = &mut self.metrics {
                            m.process_error(&e);
                        }
                        proof {
                            let input = CycleInput::<E, T>::ProcessFailed(e);
                            assert(*self.current == next_snapshot(*self.current, input));
                        }
                        Err(e)
                    },
                    Ok(value) => {
                        let ghost input = CycleInput::Processed(version, value);
                        let snap = Arc::new(Snapshot::new(version, value));
                        self.holder.store(arc_clone(&snap));
                        self.current = arc_clone(&snap);
                        if let Some(m) = &mut self.metrics {
                            m.last_successful_check(process_end);
                            m.last_successful_update(process_end);
                            m.update(&snap.version, fetch_ms, process_ms);
                        }
                        proof {
                            assert(*self.current == next_snapshot(*prev, input));
                        }
                        Ok(Some(snap))
                    },
                }
            },
        }
    }
}

} // verus!
