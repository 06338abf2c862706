//! Error type and the optional-hook contracts (fallback, update and failure
//! callbacks) that a cache can be configured with.

use vstd::prelude::*;

use std::marker::PhantomData;

use crate::metrics::Metrics;
use crate::snapshot::Snapshot;

verus! {

/// Error reported by the cache engine: a configuration problem, a failed
/// fetch, or a failed processing step. Carries a human-readable message.
#[derive(Debug)]
pub struct Error {
    pub msg: String,
}

impl Error {
    /// Builds an error carrying the given message.
    pub fn new(msg: &str) -> (e: Error)
        ensures
            e.msg@ == msg@,
    {
        Error { msg: msg.to_owned() }
    }

    /// The error's message, for display by the host application.
    pub fn message(&self) -> (m: &str)
        ensures
            m@ == self.msg@,
    {
        self.msg.as_str()
    }
}

/// Supplies a locally defined value to serve when the very first fetch
/// cannot succeed. Consumed at most once, during construction.
///
/// `spec_value` names the value the supplier will produce; `get_fallback`
/// must return exactly that value.
pub trait FallbackFn<T> {
    spec fn spec_value(&self) -> T;

    fn get_fallback(self) -> (t: T)
        ensures
            t == self.spec_value(),
    ;
}

/// A fallback that hands out a value chosen ahead of time.
pub struct Fallback<T> {
    t: T,
}

impl<T> Fallback<T> {
    /// Wraps a concrete value as the fallback.
    pub fn with_value(t: T) -> (f: Fallback<T>)
        ensures
            f.spec_value() == t,
    {
        Fallback { t }
    }
}

impl<T> FallbackFn<T> for Fallback<T> {
    closed spec fn spec_value(&self) -> T {
        self.t
    }

    fn get_fallback(self) -> (t: T)
        ensures
            t == self.spec_value(),
    {
        self.t
    }
}

/// Invoked on the writer after each successful swap, the initial one
/// included: `previous` is the snapshot that was replaced (`None` on the
/// initial swap), `new_version` and `new_dataset` the one just installed.
/// A user hook; the engine assumes nothing about what it does.
pub trait UpdateFn<T, E> {
    fn updated(&self, previous: Option<&Snapshot<E, T>>, new_version: &Option<E>, new_dataset: &T);
}

/// An update callback made from a plain function or closure. The function
/// must accept every argument triple.
pub struct OnUpdate<E, F: Fn(Option<&Snapshot<E, T>>, &Option<E>, &T), T> {
    f: F,
    phantom: PhantomData<(E, T)>,
}

#[verifier::type_invariant]
spec fn on_update_inv<E, F: Fn(Option<&Snapshot<E, T>>, &Option<E>, &T), T>(
    h: OnUpdate<E, F, T>,
) -> bool {
    forall|args: (Option<&Snapshot<E, T>>, &Option<E>, &T)| #[trigger] call_requires(h.f, args)
}

impl<E, F: Fn(Option<&Snapshot<E, T>>, &Option<E>, &T), T> OnUpdate<E, F, T> {
    /// Wraps `f` as an update callback.
    pub fn with_fn(f: F) -> OnUpdate<E, F, T>
        requires
            forall|args: (Option<&Snapshot<E, T>>, &Option<E>, &T)|
                #[trigger] call_requires(f, args),
    {
        OnUpdate { f, phantom: PhantomData }
    }
}

impl<E, F: Fn(Option<&Snapshot<E, T>>, &Option<E>, &T), T> UpdateFn<T, E> for OnUpdate<E, F, T> {
    fn updated(
        &self,
        previous: Option<&Snapshot<E, T>>,
        new_version: &Option<E>,
        new_dataset: &T,
    ) {
        proof {
            use_type_invariant(self);
        }
        (self.f)(previous, new_version, new_dataset)
    }
}

/// Invoked on the writer after each failed cycle: the error, and the last
/// known good version with the wall-clock time (epoch milliseconds) it was
/// confirmed at — the pair describes the data still being served, not the
/// failed attempt. A user hook; the engine assumes nothing about what it
/// does.
pub trait FailureFn<E> {
    fn failed(&self, err: &Error, last_version_and_ts: Option<(&Option<E>, i64)>);
}

/// A failure callback made from a plain function or closure. The function
/// must accept every argument pair.
pub struct OnFailure<E, F: Fn(&Error, Option<(&Option<E>, i64)>)> {
    f: F,
    phantom: PhantomData<E>,
}

#[verifier::type_invariant]
spec fn on_failure_inv<E, F: Fn(&Error, Option<(&Option<E>, i64)>)>(
    h: OnFailure<E, F>,
) -> bool {
    forall|args: (&Error, Option<(&Option<E>, i64)>)| #[trigger] call_requires(h.f, args)
}

impl<E, F: Fn(&Error, Option<(&Option<E>, i64)>)> OnFailure<E, F> {
    /// Wraps `f` as a failure callback.
    pub fn with_fn(f: F) -> OnFailure<E, F>
        requires
            forall|args: (&Error, Option<(&Option<E>, i64)>)| #[trigger] call_requires(f, args),
    {
        OnFailure { f, phantom: PhantomData }
    }
}

impl<E, F: Fn(&Error, Option<(&Option<E>, i64)>)> FailureFn<E> for OnFailure<E, F> {
    fn failed(&self, err: &Error, last_version_and_ts: Option<(&Option<E>, i64)>) {
        proof {
            use_type_invariant(self);
        }
        (self.f)(err, last_version_and_ts)
    }
}

/// Placeholder for an unset optional hook. Its operations do nothing; the
/// engine only ever reaches them through a hook that was never configured.
pub struct Absent {}

impl<E, T> UpdateFn<T, E> for Absent {
    fn updated(
        &self,
        _previous: Option<&Snapshot<E, T>>,
        _new_version: &Option<E>,
        _new_dataset: &T,
    ) {
    }
}

impl<E> FailureFn<E> for Absent {
    fn failed(&self, _err: &Error, _last_version_and_ts: Option<(&Option<E>, i64)>) {
    }
}

impl<E> Metrics<E> for Absent {
    fn update(&mut self, _new_version: &Option<E>, _fetch_millis: u64, _process_millis: u64) {
    }

    fn last_successful_update(&mut self, _epoch_millis: i64) {
    }

    fn check_no_update(&mut self, _check_millis: u64) {
    }

    fn last_successful_check(&mut self, _epoch_millis: i64) {
    }

    fn fallback_invoked(&mut self) {
    }

    fn fetch_error(&mut self, _err: &Error) {
    }

    fn process_error(&mut self, _err: &Error) {
    }
}

/// One watched configuration field: extracts the field from a config value
/// and reacts when two configs disagree on it.
#[verifier::reject_recursive_types(Config)]
#[verifier::reject_recursive_types(ValType)]
pub struct FieldWatch<
    Config,
    ValType,
    Ext: Fn(&Config) -> Option<&ValType>,
    Action: Fn(Option<&ValType>, Option<&ValType>),
> {
    extractor: Ext,
    action: Action,
    phantom: PhantomData<(Config, ValType)>,
}

#[verifier::type_invariant]
spec fn field_watch_inv<
    Config,
    ValType,
    Ext: Fn(&Config) -> Option<&ValType>,
    Action: Fn(Option<&ValType>, Option<&ValType>),
>(w: FieldWatch<Config, ValType, Ext, Action>) -> bool {
    &&& forall|args: (&Config,)| #[trigger] call_requires(w.extractor, args)
    &&& forall|args: (Option<&ValType>, Option<&ValType>)| #[trigger] call_requires(
        w.action,
        args,
    )
}

/// A static chain of watched fields, run in the order they were added.
pub trait FieldChain<Config> {
    fn run_fields(&self, previous: Option<&Config>, current: &Config);
}

impl<Config> FieldChain<Config> for () {
    fn run_fields(&self, _previous: Option<&Config>, _current: &Config) {
    }
}

impl<
    Config,
    ValType: PartialEq,
    Ext: Fn(&Config) -> Option<&ValType>,
    Action: Fn(Option<&ValType>, Option<&ValType>),
    Rest: FieldChain<Config>,
> FieldChain<Config> for (Rest, FieldWatch<Config, ValType, Ext, Action>) {
    fn run_fields(&self, previous: Option<&Config>, current: &Config) {
        self.0.run_fields(previous, current);
        proof {
            use_type_invariant(&self.1);
        }
        let old_val = match previous {
            Some(c) => (self.1.extractor)(c),
            None => None,
        };
        let new_val = (self.1.extractor)(current);
        if old_val != new_val {
            (self.1.action)(old_val, new_val);
        }
    }
}

/// Builds an update callback that compares selected fields of the old and
/// new config and runs an action for each field that changed.
pub struct FieldUpdate<Config, Fields> {
    fields: Fields,
    phantom: PhantomData<Config>,
}

impl<Config> FieldUpdate<Config, ()> {
    /// A field-update builder watching no fields yet.
    pub fn new() -> FieldUpdate<Config, ()> {
        FieldUpdate { fields: (), phantom: PhantomData }
    }
}

impl<Config, Fields: FieldChain<Config>> FieldUpdate<Config, Fields> {
    /// Also watch the field `extractor` selects, running `action` with the
    /// old and new value whenever the two differ. Both functions must accept
    /// every argument.
    pub fn add_field<
        ValType: PartialEq,
        Ext: Fn(&Config) -> Option<&ValType>,
        Action: Fn(Option<&ValType>, Option<&ValType>),
    >(self, extractor: Ext, action: Action) -> FieldUpdate<
        Config,
        (Fields, FieldWatch<Config, ValType, Ext, Action>),
    >
        requires
            forall|args: (&Config,)| #[trigger] call_requires(extractor, args),
            forall|args: (Option<&ValType>, Option<&ValType>)| #[trigger] call_requires(
                action,
                args,
            ),
    {
        FieldUpdate {
            fields: (self.fields, FieldWatch { extractor, action, phantom: PhantomData }),
            phantom: PhantomData,
        }
    }

    /// The finished callback.
    pub fn build(self) -> FieldUpdateFn<Config, Fields> {
        FieldUpdateFn { fields: self.fields, phantom: PhantomData }
    }
}

/// The update callback a [`FieldUpdate`] builder produces.
pub struct FieldUpdateFn<Config, Fields> {
    fields: Fields,
    phantom: PhantomData<Config>,
}

impl<Config, Fields: FieldChain<Config>, Version> UpdateFn<Config, Version> for FieldUpdateFn<
    Config,
    Fields,
> {
    fn updated(
        &self,
        previous: Option<&Snapshot<Version, Config>>,
        _new_version: &Option<Version>,
        new_dataset: &Config,
    ) {
        let previous_config = match previous {
            Some(s) => Some(&s.value),
            None => None,
        };
        self.fields.run_fields(previous_config, new_dataset)
    }
}

} // verus!
