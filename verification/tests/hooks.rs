use std::cell::RefCell;
use std::rc::Rc;
use std::sync::Arc;

use full_dataset_cache::cache::{map_builder, object_builder};
use full_dataset_cache::metrics::Metrics;
use full_dataset_cache::processors::RawConfigProcessor;
use full_dataset_cache::snapshot::Snapshot;
use full_dataset_cache::sources::ConfigSource;
use full_dataset_cache::util::{Error, Fallback, FieldUpdate, UpdateFn};

/// A source whose behaviour is scripted, one answer per fetch.
struct ScriptedSource {
    answers: RefCell<Vec<Answer>>,
}

enum Answer {
    Fail(String),
    Unchanged,
    Payload(Option<u64>, String),
}

impl ScriptedSource {
    fn new(answers: Vec<Answer>) -> ScriptedSource {
        ScriptedSource { answers: RefCell::new(answers) }
    }

    fn next_answer(&self) -> Answer {
        let mut a = self.answers.borrow_mut();
        if a.is_empty() {
            Answer::Unchanged
        } else {
            a.remove(0)
        }
    }
}

impl ConfigSource<u64, String> for ScriptedSource {
    fn fetch(&self) -> Result<(Option<u64>, String), Error> {
        match self.next_answer() {
            Answer::Fail(msg) => Err(Error::new(&msg)),
            Answer::Unchanged => Err(Error::new("unconditional fetch cannot be unchanged")),
            Answer::Payload(v, s) => Ok((v, s)),
        }
    }

    fn fetch_if_newer(&self, _version: &u64) -> Result<Option<(Option<u64>, String)>, Error> {
        match self.next_answer() {
            Answer::Fail(msg) => Err(Error::new(&msg)),
            Answer::Unchanged => Ok(None),
            Answer::Payload(v, s) => Ok(Some((v, s))),
        }
    }
}

#[derive(Clone, Default)]
struct Counts {
    update: usize,
    last_update: usize,
    no_update: usize,
    last_check: usize,
    fallback: usize,
    fetch_error: usize,
    process_error: usize,
}

struct CountingMetrics {
    counts: Rc<RefCell<Counts>>,
}

impl Metrics<u64> for CountingMetrics {
    fn update(&mut self, _new_version: &Option<u64>, _fetch_millis: u64, _process_millis: u64) {
        self.counts.borrow_mut().update += 1;
    }

    fn last_successful_update(&mut self, _epoch_millis: i64) {
        self.counts.borrow_mut().last_update += 1;
    }

    fn check_no_update(&mut self, _check_millis: u64) {
        self.counts.borrow_mut().no_update += 1;
    }

    fn last_successful_check(&mut self, _epoch_millis: i64) {
        self.counts.borrow_mut().last_check += 1;
    }

    fn fallback_invoked(&mut self) {
        self.counts.borrow_mut().fallback += 1;
    }

    fn fetch_error(&mut self, _err: &Error) {
        self.counts.borrow_mut().fetch_error += 1;
    }

    fn process_error(&mut self, _err: &Error) {
        self.counts.borrow_mut().process_error += 1;
    }
}

/// A processor that serves a whole payload as one object, failing on the
/// payload "reject".
struct WholeText;

impl RawConfigProcessor<String, Arc<String>> for WholeText {
    fn good(&self, _v: &Arc<String>) -> bool {
        true
    }

    fn process(&self, raw: String) -> Result<Arc<String>, Error> {
        if raw == "reject" {
            Err(Error::new("rejected"))
        } else {
            Ok(Arc::new(raw))
        }
    }
}

#[test]
fn metrics_see_each_cycle_outcome_once() {
    let counts = Rc::new(RefCell::new(Counts::default()));
    let source = ScriptedSource::new(vec![
        Answer::Payload(Some(1), "first".to_string()),
        Answer::Unchanged,
        Answer::Fail("down".to_string()),
        Answer::Payload(Some(2), "reject".to_string()),
        Answer::Payload(Some(3), "second".to_string()),
    ]);
    let mut cache = object_builder::<String, String, u64, ScriptedSource, WholeText>()
        .with_source(source)
        .with_processor(WholeText)
        .with_fetch_interval(2)
        .with_metrics(CountingMetrics { counts: counts.clone() })
        .build()
        .unwrap();

    assert!(matches!(cache.run_cycle(), Ok(None)));
    assert!(cache.run_cycle().is_err());
    assert!(cache.run_cycle().is_err());
    assert!(matches!(cache.run_cycle(), Ok(Some(_))));

    let c = counts.borrow().clone();
    // two successful updates: the initial install and the final cycle
    assert_eq!(c.update, 2);
    assert_eq!(c.last_update, 2);
    // one "unchanged" check
    assert_eq!(c.no_update, 1);
    // successful checks: two updates and one no-change answer
    assert_eq!(c.last_check, 3);
    assert_eq!(c.fetch_error, 1);
    assert_eq!(c.process_error, 1);
    assert_eq!(c.fallback, 0);
}

#[test]
fn metrics_see_the_fallback() {
    let counts = Rc::new(RefCell::new(Counts::default()));
    let source = ScriptedSource::new(vec![Answer::Fail("down".to_string())]);
    let cache = object_builder::<String, String, u64, ScriptedSource, WholeText>()
        .with_source(source)
        .with_processor(WholeText)
        .with_fetch_interval(2)
        .with_fallback(Fallback::with_value(Arc::new("fallback".to_string())))
        .with_metrics(CountingMetrics { counts: counts.clone() })
        .build()
        .unwrap();
    assert_eq!(*cache.cache().get_current(), "fallback".to_string());
    let c = counts.borrow().clone();
    assert_eq!(c.fallback, 1);
    assert_eq!(c.fetch_error, 1);
    assert_eq!(c.update, 0);
}

fn parse_kv(line: String) -> Result<Option<(String, i32)>, Error> {
    let trimmed = line.trim();
    if trimmed.is_empty() || trimmed.starts_with('#') {
        return Ok(None);
    }
    match trimmed.split_once('=') {
        Some((k, v)) => match v.parse::<i32>() {
            Ok(n) => Ok(Some((k.to_string(), n))),
            Err(_) => Err(Error::new("bad value")),
        },
        None => Err(Error::new("missing separator")),
    }
}

type MapData = Vec<(String, Arc<i32>)>;

fn find<'a>(conf: &'a MapData, key: &str) -> Option<&'a i32> {
    conf.iter().find(|(k, _)| k == key).map(|(_, v)| &**v)
}

#[test]
fn field_update_reacts_to_changed_fields_only() {
    let changes: Arc<std::sync::Mutex<Vec<(Option<i32>, Option<i32>)>>> =
        Arc::new(std::sync::Mutex::new(Vec::new()));
    let changes_in_cb = changes.clone();

    let callback = FieldUpdate::<MapData, ()>::new().add_field(
        |conf: &MapData| find(conf, "A"),
        move |old_val: Option<&i32>, new_val: Option<&i32>| {
            changes_in_cb
                .lock()
                .unwrap()
                .push((old_val.copied(), new_val.copied()));
        },
    ).build();

    let source = ScriptedSource::new(vec![
        Answer::Payload(Some(1), "A=1\nB=2\n".to_string()),
        Answer::Payload(Some(2), "A=1\nB=9\n".to_string()),
        Answer::Payload(Some(3), "A=4\nB=9\n".to_string()),
    ]);
    let mut cache = map_builder::<String, i32, String, u64, ScriptedSource, _>()
        .with_source(source)
        .with_processor(full_dataset_cache::processors::RawLineMapProcessor::new(
            parse_kv as fn(String) -> Result<Option<(String, i32)>, Error>,
        ))
        .with_fetch_interval(2)
        .with_update_callback(callback)
        .build()
        .unwrap();

    cache.run_cycle().unwrap();
    cache.run_cycle().unwrap();

    let seen = changes.lock().unwrap();
    // the initial install sets A to 1; the B-only update is silent; the
    // last cycle changes A to 4
    assert_eq!(*seen, vec![(None, Some(1)), (Some(1), Some(4))]);
}

#[test]
fn field_update_runs_as_plain_update_fn() {
    let hits: Arc<std::sync::Mutex<Vec<Option<i32>>>> = Arc::new(std::sync::Mutex::new(Vec::new()));
    let hits_in_cb = hits.clone();
    let callback = FieldUpdate::<MapData, ()>::new().add_field(
        |conf: &MapData| find(conf, "K"),
        move |_old: Option<&i32>, new_val: Option<&i32>| {
            hits_in_cb.lock().unwrap().push(new_val.copied());
        },
    ).build();

    let conf: MapData = vec![("K".to_string(), Arc::new(5))];
    let snap = Snapshot::new(Some(1u64), conf.clone());
    callback.updated(None, &Some(2), &conf);
    callback.updated(Some(&snap), &Some(3), &conf);

    let seen = hits.lock().unwrap();
    // invoked when the field appears, silent when it is unchanged
    assert_eq!(*seen, vec![Some(5)]);
}
