//! The cache handle and its builder.
//!
//! `build()` validates the configuration, runs one unconditional fetch →
//! process cycle, installs the result (or the configured fallback) as the
//! first snapshot, and returns a running cache — or an error, in which case
//! nothing was created. The host drives `run_cycle` on its chosen period
//! (a dedicated timer thread or a cooperative task; the engine is agnostic);
//! readers go through the accessor view obtained from `cache()`.

use vstd::prelude::*;

use std::marker::PhantomData;
use std::sync::Arc;

use vstd::string::StringExecFns;

use crate::collections::{AccessorView, UpdatingMap, UpdatingObject, UpdatingSet};
use crate::holder::{arc_clone, Holder, SnapshotPred};
use crate::metrics::{elapsed_millis, now_epoch_millis, Metrics};
use crate::processors::RawConfigProcessor;
use crate::snapshot::Snapshot;
use crate::sources::ConfigSource;
use crate::updater::Updater;
use crate::util::{Absent, Error, Fallback, FallbackFn, FailureFn, UpdateFn};

verus! {

/// Turns the outcome of the initial unconditional fetch-and-process into
/// the cache's first snapshot: real data becomes the first snapshot as it
/// is; a failure is answered with the configured fallback, installed as an
/// unversioned snapshot; a failure with no fallback configured fails
/// construction. The boolean reports whether the fallback was used.
pub fn initial_snapshot<E, T, A: FallbackFn<T>>(
    init: Result<(Option<E>, T), Error>,
    fallback: Option<A>,
) -> (r: Result<(Snapshot<E, T>, bool), Error>)
    ensures
        match init {
            Ok(p) => r matches Ok(q) && q.0 == (Snapshot { version: p.0, value: p.1 }) && q.1
                == false,
            Err(e) => match fallback {
                Some(a) => r matches Ok(q) && q.0.version is None && q.0.value == a.spec_value()
                    && q.1 == true,
                None => r matches Err(e2) && e2.msg@ == "Couldn't complete initial fetch: "@
                    + e.msg@,
            },
        },
{
    match init {
        Ok((version, value)) => Ok((Snapshot::new(version, value), false)),
        Err(e) => match fallback {
            Some(a) => Ok((Snapshot::new(None, a.get_fallback()), true)),
            None => Err(
                Error {
                    msg: "Couldn't complete initial fetch: ".to_owned().concat(e.message()),
                },
            ),
        },
    }
}

/// A running cache: a shared accessor view for readers, and the updater
/// that the host's scheduler drives through `run_cycle`. Dropping the
/// handle (and with it the host's scheduler) stops refresh; accessor views
/// already handed out stay valid against the last published snapshot.
#[verifier::reject_recursive_types(E)]
#[verifier::reject_recursive_types(T)]
pub struct MirrorCache<O, T, S, E, C, P, U = Absent, F = Absent, M = Absent> {
    collection: Arc<O>,
    updater: Updater<S, T, E, C, P, M>,
    update_callback: Option<U>,
    failure_callback: Option<F>,
    name: Option<String>,
    fetch_interval_millis: u64,
    last_success_millis: i64,
}

impl<
    O,
    T,
    S,
    E,
    C: ConfigSource<E, S>,
    P: RawConfigProcessor<S, T>,
    U: UpdateFn<T, E>,
    F: FailureFn<E>,
    M: Metrics<E>,
> MirrorCache<O, T, S, E, C, P, U, F, M> {
    /// The engine's invariants hold.
    pub closed spec fn wf(&self) -> bool {
        self.updater.wf()
    }

    /// The snapshot the engine last published.
    pub closed spec fn current_snapshot(&self) -> Arc<Snapshot<E, T>> {
        self.updater.current_snapshot()
    }

    /// The accessor view this cache serves.
    pub closed spec fn collection_of(&self) -> Arc<O> {
        self.collection
    }

    /// Whether the cache's processor guarantees `v`.
    pub closed spec fn processor_good(&self, v: &T) -> bool {
        self.updater.processor_good(v)
    }

    /// The configured name.
    pub closed spec fn name_of(&self) -> Option<String> {
        self.name
    }

    /// The configured refresh period.
    pub closed spec fn interval_of(&self) -> u64 {
        self.fetch_interval_millis
    }

    /// The snapshot the cache is serving: the one the engine last
    /// published. This is the verified read path on the cache handle — what
    /// `build` and `run_cycle` prove of `current_snapshot()` is exactly
    /// what this returns.
    pub fn snapshot(&self) -> (s: Arc<Snapshot<E, T>>)
        ensures
            s == self.current_snapshot(),
    {
        self.updater.current()
    }

    /// A shared handle on the cache's accessor view.
    pub fn cache(&self) -> (r: Arc<O>)
        ensures
            r == self.collection_of(),
    {
        arc_clone(&self.collection)
    }

    /// The configured name, for naming the host's scheduler thread.
    pub fn name(&self) -> (r: &Option<String>)
        ensures
            *r == self.name_of(),
    {
        &self.name
    }

    /// The refresh period, in milliseconds: how long the host's scheduler
    /// waits between two calls of `run_cycle`.
    pub fn fetch_interval_millis(&self) -> (r: u64)
        ensures
            r == self.interval_of(),
    {
        self.fetch_interval_millis
    }

    /// One scheduled refresh tick: runs one updater cycle and routes its
    /// outcome — the update callback (with the replaced snapshot) after a
    /// successful swap, the failure callback (with the last known good
    /// version and its wall-clock time) after a failed cycle, and nothing
    /// on "no change". Errors are absorbed here: they reach the failure
    /// callback and the returned report, never a reader.
    pub fn run_cycle(&mut self) -> (r: Result<Option<Arc<Snapshot<E, T>>>, Error>)
        requires
            old(self).wf(),
        ensures
            final(self).wf(),
            final(self).collection_of() == old(self).collection_of(),
            forall|v: &T|
                #[trigger] final(self).processor_good(v) == old(self).processor_good(v),
            match r {
                Ok(Some(s)) => final(self).current_snapshot() == s && old(self).processor_good(
                    &(*s).value,
                ),
                Ok(None) => final(self).current_snapshot() == old(self).current_snapshot(),
                Err(_) => final(self).current_snapshot() == old(self).current_snapshot(),
            },
    {
        let previous = self.updater.current();
        let result = self.updater.update();
        match &result {
            Ok(opt) => {
                if let Some(snap) = opt {
                    self.last_success_millis = now_epoch_millis();
                    if let Some(u) = &self.update_callback {
                        u.updated(Some(&*previous), &snap.version, &snap.value);
                    }
                }
            },
            Err(e) => {
                if let Some(f) = &self.failure_callback {
                    f.failed(e, Some((&previous.version, self.last_success_millis)));
                }
            },
        }
        result
    }
}

/// Assembles a cache's configuration. `config_source`, `config_processor`
/// and `fetch_interval_millis` are required; everything else is optional.
/// Immutable once `build()` has consumed it.
pub struct Builder<O, T, S, E, C, P, U = Absent, F = Absent, A = Fallback<T>, M = Absent> {
    pub name: Option<String>,
    pub fetch_interval_millis: Option<u64>,
    pub config_source: Option<C>,
    pub config_processor: Option<P>,
    pub update_callback: Option<U>,
    pub failure_callback: Option<F>,
    pub fallback: Option<A>,
    pub metrics: Option<M>,
    pub phantom: PhantomData<(O, T, S, E)>,
}

/// A builder with nothing configured.
fn builder<O, T, S, E, C, P>() -> (r: Builder<O, T, S, E, C, P>)
    ensures
        r.name is None,
        r.fetch_interval_millis is None,
        r.config_source is None,
        r.config_processor is None,
        r.update_callback is None,
        r.failure_callback is None,
        r.fallback is None,
        r.metrics is None,
{
    Builder {
        name: None,
        fetch_interval_millis: None,
        config_source: None,
        config_processor: None,
        update_callback: None,
        failure_callback: None,
        fallback: None,
        metrics: None,
        phantom: PhantomData,
    }
}

/// A builder for a map-shaped cache served through an [`UpdatingMap`].
pub fn map_builder<K, V, S, E, C, P>() -> (r: Builder<
    UpdatingMap<E, K, V>,
    Vec<(K, Arc<V>)>,
    S,
    E,
    C,
    P,
>)
    ensures
        r.name is None,
        r.fetch_interval_millis is None,
        r.config_source is None,
        r.config_processor is None,
        r.update_callback is None,
        r.failure_callback is None,
        r.fallback is None,
        r.metrics is None,
{
    builder()
}

/// A builder for a set-shaped cache served through an [`UpdatingSet`].
pub fn set_builder<V, S, E, C, P>() -> (r: Builder<UpdatingSet<E, V>, Vec<V>, S, E, C, P>)
    ensures
        r.name is None,
        r.fetch_interval_millis is None,
        r.config_source is None,
        r.config_processor is None,
        r.update_callback is None,
        r.failure_callback is None,
        r.fallback is None,
        r.metrics is None,
{
    builder()
}

/// A builder for a single-object cache served through an [`UpdatingObject`].
pub fn object_builder<V, S, E, C, P>() -> (r: Builder<UpdatingObject<E, V>, Arc<V>, S, E, C, P>)
    ensures
        r.name is None,
        r.fetch_interval_millis is None,
        r.config_source is None,
        r.config_processor is None,
        r.update_callback is None,
        r.failure_callback is None,
        r.fallback is None,
        r.metrics is None,
{
    builder()
}

impl<
    O: AccessorView<E, T>,
    T,
    S,
    E,
    C: ConfigSource<E, S>,
    P: RawConfigProcessor<S, T>,
    U: UpdateFn<T, E>,
    F: FailureFn<E>,
    A: FallbackFn<T>,
    M: Metrics<E>,
> Builder<O, T, S, E, C, P, U, F, A, M> {
    /// Names the cache; the host may use it to name the scheduler thread.
    pub fn with_name(self, name: &str) -> (r: Builder<O, T, S, E, C, P, U, F, A, M>)
        ensures
            r.name matches Some(n) && n@ == name@,
            r.fetch_interval_millis == self.fetch_interval_millis,
            r.config_source == self.config_source,
            r.config_processor == self.config_processor,
            r.update_callback == self.update_callback,
            r.failure_callback == self.failure_callback,
            r.fallback == self.fallback,
            r.metrics == self.metrics,
    {
        Builder { name: Some(name.to_owned()), ..self }
    }

    /// Sets the required source adapter.
    pub fn with_source(self, source: C) -> (r: Builder<O, T, S, E, C, P, U, F, A, M>)
        ensures
            r.config_source == Some(source),
            r.name == self.name,
            r.fetch_interval_millis == self.fetch_interval_millis,
            r.config_processor == self.config_processor,
            r.update_callback == self.update_callback,
            r.failure_callback == self.failure_callback,
            r.fallback == self.fallback,
            r.metrics == self.metrics,
    {
        Builder { config_source: Some(source), ..self }
    }

    /// Sets the required processor.
    pub fn with_processor(self, processor: P) -> (r: Builder<O, T, S, E, C, P, U, F, A, M>)
        ensures
            r.config_processor == Some(processor),
            r.name == self.name,
            r.fetch_interval_millis == self.fetch_interval_millis,
            r.config_source == self.config_source,
            r.update_callback == self.update_callback,
            r.failure_callback == self.failure_callback,
            r.fallback == self.fallback,
            r.metrics == self.metrics,
    {
        Builder { config_processor: Some(processor), ..self }
    }

    /// Sets the required refresh period, in milliseconds.
    pub fn with_fetch_interval(self, millis: u64) -> (r: Builder<O, T, S, E, C, P, U, F, A, M>)
        ensures
            r.fetch_interval_millis == Some(millis),
            r.name == self.name,
            r.config_source == self.config_source,
            r.config_processor == self.config_processor,
            r.update_callback == self.update_callback,
            r.failure_callback == self.failure_callback,
            r.fallback == self.fallback,
            r.metrics == self.metrics,
    {
        Builder { fetch_interval_millis: Some(millis), ..self }
    }

    /// Sets the optional update callback.
    pub fn with_update_callback<UU: UpdateFn<T, E>>(self, callback: UU) -> (r: Builder<
        O,
        T,
        S,
        E,
        C,
        P,
        UU,
        F,
        A,
        M,
    >)
        ensures
            r.update_callback == Some(callback),
            r.name == self.name,
            r.fetch_interval_millis == self.fetch_interval_millis,
            r.config_source == self.config_source,
            r.config_processor == self.config_processor,
            r.failure_callback == self.failure_callback,
            r.fallback == self.fallback,
            r.metrics == self.metrics,
    {
        Builder {
            name: self.name,
            fetch_interval_millis: self.fetch_interval_millis,
            config_source: self.config_source,
            config_processor: self.config_processor,
            update_callback: Some(callback),
            failure_callback: self.failure_callback,
            fallback: self.fallback,
            metrics: self.metrics,
            phantom: PhantomData,
        }
    }

    /// Sets the optional failure callback.
    pub fn with_failure_callback<FF: FailureFn<E>>(self, callback: FF) -> (r: Builder<
        O,
        T,
        S,
        E,
        C,
        P,
        U,
        FF,
        A,
        M,
    >)
        ensures
            r.failure_callback == Some(callback),
            r.name == self.name,
            r.fetch_interval_millis == self.fetch_interval_millis,
            r.config_source == self.config_source,
            r.config_processor == self.config_processor,
            r.update_callback == self.update_callback,
            r.fallback == self.fallback,
            r.metrics == self.metrics,
    {
        Builder {
            name: self.name,
            fetch_interval_millis: self.fetch_interval_millis,
            config_source: self.config_source,
            config_processor: self.config_processor,
            update_callback: self.update_callback,
            failure_callback: Some(callback),
            fallback: self.fallback,
            metrics: self.metrics,
            phantom: PhantomData,
        }
    }

    /// Sets the optional fallback, consumed only if the initial fetch fails.
    pub fn with_fallback<AA: FallbackFn<T>>(self, fallback: AA) -> (r: Builder<
        O,
        T,
        S,
        E,
        C,
        P,
        U,
        F,
        AA,
        M,
    >)
        ensures
            r.fallback == Some(fallback),
            r.name == self.name,
            r.fetch_interval_millis == self.fetch_interval_millis,
            r.config_source == self.config_source,
            r.config_processor == self.config_processor,
            r.update_callback == self.update_callback,
            r.failure_callback == self.failure_callback,
            r.metrics == self.metrics,
    {
        Builder {
            name: self.name,
            fetch_interval_millis: self.fetch_interval_millis,
            config_source: self.config_source,
            config_processor: self.config_processor,
            update_callback: self.update_callback,
            failure_callback: self.failure_callback,
            fallback: Some(fallback),
            metrics: self.metrics,
            phantom: PhantomData,
        }
    }

    /// Sets the optional metrics sink.
    pub fn with_metrics<MM: Metrics<E>>(self, metrics: MM) -> (r: Builder<
        O,
        T,
        S,
        E,
        C,
        P,
        U,
        F,
        A,
        MM,
    >)
        ensures
            r.metrics == Some(metrics),
            r.name == self.name,
            r.fetch_interval_millis == self.fetch_interval_millis,
            r.config_source == self.config_source,
            r.config_processor == self.config_processor,
            r.update_callback == self.update_callback,
            r.failure_callback == self.failure_callback,
            r.fallback == self.fallback,
    {
        Builder {
            name: self.name,
            fetch_interval_millis: self.fetch_interval_millis,
            config_source: self.config_source,
            config_processor: self.config_processor,
            update_callback: self.update_callback,
            failure_callback: self.failure_callback,
            fallback: self.fallback,
            metrics: Some(metrics),
            phantom: PhantomData,
        }
    }

    /// Validates the configuration, runs the initial cycle, and returns a
    /// running cache — or an error, in which case nothing was created: no
    /// holder, no view, and nothing for a scheduler to drive.
    ///
    /// Each missing required field is its own error; with the required
    /// fields present, the only other error is a failed initial fetch (and
    /// with a fallback configured, construction cannot fail at all). On
    /// success, every snapshot the returned cache's view can ever observe
    /// is either a value the processor produced (and so guarantees) or the
    /// configured fallback's exact value, unversioned — there is no
    /// observable uninitialized state.
    pub fn build(self) -> (r: Result<MirrorCache<O, T, S, E, C, P, U, F, M>, Error>)
        ensures
            self.config_source is None ==> (r matches Err(e) && e.msg@
                == "No config source specified"@),
            self.config_source is Some && self.config_processor is None ==> (r matches Err(e)
                && e.msg@ == "No config processor specified"@),
            self.config_source is Some && self.config_processor is Some
                && self.fetch_interval_millis is None ==> (r matches Err(e) && e.msg@
                == "No fetch interval specified"@),
            self.config_source is Some && self.config_processor is Some
                && self.fetch_interval_millis is Some && self.fallback is Some ==> r is Ok,
            r matches Ok(c) ==> {
                &&& c.wf()
                &&& c.name_of() == self.name
                &&& Some(c.interval_of()) == self.fetch_interval_millis
                &&& c.processor_good(&(*c.current_snapshot()).value) || ((
                *c.current_snapshot()).version is None && (self.fallback matches Some(a) && (
                *c.current_snapshot()).value == a.spec_value()))
                &&& forall|s: Arc<Snapshot<E, T>>|
                    (*c.collection_of()).inv(s) <==> (#[trigger] c.processor_good(&(*s).value)
                        || ((*s).version is None && (self.fallback matches Some(a) && (
                        *s).value == a.spec_value())))
            },
            self.config_source is Some && self.config_processor is Some
                && self.fetch_interval_millis is Some ==> match r {
                Err(e) => exists|m: Seq<char>|
                    e.msg@ == "Couldn't complete initial fetch: "@ + m,
                Ok(_) => true,
            },
    {
        let Builder {
            name,
            fetch_interval_millis,
            config_source,
            config_processor,
            update_callback,
            failure_callback,
            fallback,
            metrics: maybe_metrics,
            phantom: _,
        } = self;

        let source = match config_source {
            Some(s) => s,
            None => {
                return Err(Error::new("No config source specified"));
            },
        };
        let processor = match config_processor {
            Some(p) => p,
            None => {
                return Err(Error::new("No config processor specified"));
            },
        };
        let interval = match fetch_interval_millis {
            Some(i) => i,
            None => {
                return Err(Error::new("No fetch interval specified"));
            },
        };

        let mut metrics = maybe_metrics;
        let fetch_start = now_epoch_millis();
        let fetched = source.fetch();
        let fetch_end = now_epoch_millis();
        let fetch_ms = elapsed_millis(fetch_start, fetch_end);
        let init: Result<(Option<E>, T), Error> = match fetched {
            Ok((v, raw)) => {
                let process_start = now_epoch_millis();
                let processed = processor.process(raw);
                let process_end = now_epoch_millis();
                let process_ms = elapsed_millis(process_start, process_end);
                match processed {
                    Ok(t) => {
                        if let Some(m) = &mut metrics {
                            m.last_successful_check(process_end);
                            m.last_successful_update(process_end);
                            m.update(&v, fetch_ms, process_ms);
                        }
                        Ok((v, t))
                    },
                    Err(e) => {
                        if let Some(m) = &mut metrics {
                            m.process_error(&e);
                        }
                        Err(e)
                    },
                }
            },
            Err(e) => {
                if let Some(m) = &mut metrics {
                    m.fetch_error(&e);
                }
                Err(e)
            },
        };

        let ghost fb = fallback;
        let ghost init0 = init;
        let (snap0, used_fallback) = match initial_snapshot(init, fallback) {
            Ok(p) => p,
            Err(e) => {
                proof {
                    match init0 {
                        Err(e0) => {
                            assert(e.msg@ == "Couldn't complete initial fetch: "@ + e0.msg@);
                        },
                        Ok(_) => {},
                    }
                }
                return Err(e);
            },
        };
        if used_fallback {
            if let Some(m) = &mut metrics {
                m.fallback_invoked();
            }
        }

        let first = Arc::new(snap0);
        let ghost pred: SnapshotPred<E, T> = |s: Arc<Snapshot<E, T>>|
            processor.good(&(*s).value) || ((*s).version is None && (fb matches Some(a) && (
            *s).value == a.spec_value()));
        proof {
            assert(pred(first));
        }
        let holder = Holder::new(arc_clone(&first), Ghost(pred));
        let collection = Arc::new(O::from_holder(holder.duplicate()));

        if !used_fallback {
            if let Some(u) = &update_callback {
                u.updated(None, &first.version, &first.value);
            }
        }

        let updater = Updater::new(holder, source, processor, metrics, first);
        let last_success = now_epoch_millis();

        Ok(
            MirrorCache {
                collection,
                updater,
                update_callback,
                failure_callback,
                name,
                fetch_interval_millis: interval,
                last_success_millis: last_success,
            },
        )
    }
}

} // verus!
