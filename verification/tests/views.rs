use std::cell::RefCell;
use std::sync::Arc;

use full_dataset_cache::cache::{map_builder, object_builder, set_builder};
use full_dataset_cache::collections::{map_get, set_member};
use full_dataset_cache::processors::RawLineMapProcessor;
use full_dataset_cache::processors::{RawConfigProcessor, RawLineSetProcessor};
use full_dataset_cache::sources::ConfigSource;
use full_dataset_cache::util::{Error, Fallback};

/// A source serving a fixed sequence of payloads, one per fetch.
struct SeqSource {
    payloads: RefCell<Vec<(Option<u64>, String)>>,
}

impl SeqSource {
    fn new(payloads: Vec<(Option<u64>, String)>) -> SeqSource {
        SeqSource { payloads: RefCell::new(payloads) }
    }
}

impl ConfigSource<u64, String> for SeqSource {
    fn fetch(&self) -> Result<(Option<u64>, String), Error> {
        let mut p = self.payloads.borrow_mut();
        if p.is_empty() {
            Err(Error::new("exhausted"))
        } else {
            Ok(p.remove(0))
        }
    }

    fn fetch_if_newer(&self, _version: &u64) -> Result<Option<(Option<u64>, String)>, Error> {
        let mut p = self.payloads.borrow_mut();
        if p.is_empty() {
            Ok(None)
        } else {
            Ok(Some(p.remove(0)))
        }
    }
}

fn parse_word(line: String) -> Result<Option<String>, Error> {
    let trimmed = line.trim();
    if trimmed.is_empty() || trimmed.starts_with('#') {
        Ok(None)
    } else {
        Ok(Some(trimmed.to_string()))
    }
}

type WordProcessor =
    RawLineSetProcessor<String, fn(String) -> Result<Option<String>, Error>>;

fn word_processor() -> WordProcessor {
    RawLineSetProcessor::new(parse_word)
}

#[test]
fn set_view_contains_and_len() {
    let source = SeqSource::new(vec![(Some(1), "alpha\nbeta\nalpha\n".to_string())]);
    let cache = set_builder::<String, String, u64, SeqSource, _>()
        .with_source(source)
        .with_processor(word_processor())
        .with_fetch_interval(2)
        .build()
        .unwrap();
    let set = cache.cache();
    assert!(set.contains(&"alpha".to_string()));
    assert!(set.contains(&"beta".to_string()));
    assert!(!set.contains(&"gamma".to_string()));
    // the duplicate line was collapsed: a set holds each item once
    assert_eq!(set.len(), 2);
    assert!(!set.is_empty());
}

#[test]
fn set_view_updates_wholesale() {
    let source = SeqSource::new(vec![
        (Some(1), "alpha\n".to_string()),
        (Some(2), "beta\ngamma\n".to_string()),
    ]);
    let mut cache = set_builder::<String, String, u64, SeqSource, _>()
        .with_source(source)
        .with_processor(word_processor())
        .with_fetch_interval(2)
        .build()
        .unwrap();
    let set = cache.cache();
    assert!(set.contains(&"alpha".to_string()));
    cache.run_cycle().unwrap();
    assert!(!set.contains(&"alpha".to_string()));
    assert!(set.contains(&"beta".to_string()));
    assert!(set.contains(&"gamma".to_string()));
}

/// A processor that serves a whole payload as one object.
struct WholeText;

impl RawConfigProcessor<String, Arc<String>> for WholeText {
    fn good(&self, _v: &Arc<String>) -> bool {
        true
    }

    fn process(&self, raw: String) -> Result<Arc<String>, Error> {
        Ok(Arc::new(raw))
    }
}

#[test]
fn object_view_serves_current_value() {
    let source = SeqSource::new(vec![
        (Some(1), "first".to_string()),
        (Some(2), "second".to_string()),
    ]);
    let mut cache = object_builder::<String, String, u64, SeqSource, WholeText>()
        .with_source(source)
        .with_processor(WholeText)
        .with_fetch_interval(2)
        .build()
        .unwrap();
    let obj = cache.cache();
    assert_eq!(*obj.get_current(), "first".to_string());
    cache.run_cycle().unwrap();
    assert_eq!(*obj.get_current(), "second".to_string());
}

#[test]
fn object_fallback_is_served() {
    let source = SeqSource::new(vec![]);
    let cache = object_builder::<String, String, u64, SeqSource, WholeText>()
        .with_source(source)
        .with_processor(WholeText)
        .with_fetch_interval(2)
        .with_fallback(Fallback::with_value(Arc::new("default".to_string())))
        .build()
        .unwrap();
    let obj = cache.cache();
    assert_eq!(*obj.get_current(), "default".to_string());
}

#[test]
fn reader_handles_stay_valid_across_swaps() {
    let source = SeqSource::new(vec![
        (Some(1), "first".to_string()),
        (Some(2), "second".to_string()),
    ]);
    let mut cache = object_builder::<String, String, u64, SeqSource, WholeText>()
        .with_source(source)
        .with_processor(WholeText)
        .with_fetch_interval(2)
        .build()
        .unwrap();
    let obj = cache.cache();
    // a value obtained before a swap is one complete snapshot's value and
    // stays valid after the swap replaces the published snapshot
    let before = obj.get_current();
    cache.run_cycle().unwrap();
    assert_eq!(*before, "first".to_string());
    assert_eq!(*obj.get_current(), "second".to_string());
}

#[test]
fn unchanged_cycle_preserves_snapshot_identity() {
    let source = SeqSource::new(vec![(Some(1), "first".to_string())]);
    let mut cache = object_builder::<String, String, u64, SeqSource, WholeText>()
        .with_source(source)
        .with_processor(WholeText)
        .with_fetch_interval(2)
        .build()
        .unwrap();
    let obj = cache.cache();
    let before = obj.get_current();
    // the source is exhausted: every conditional fetch reports "unchanged"
    assert!(matches!(cache.run_cycle(), Ok(None)));
    assert!(matches!(cache.run_cycle(), Ok(None)));
    let after = obj.get_current();
    // not merely an equal value: the very same shared snapshot value
    assert!(Arc::ptr_eq(&before, &after));
}

#[test]
fn witness_snapshots_give_consistent_reads() {

    fn parse_kv(line: String) -> Result<Option<(String, i32)>, Error> {
        match line.split_once('=') {
            Some((k, v)) => match v.parse::<i32>() {
                Ok(n) => Ok(Some((k.to_string(), n))),
                Err(_) => Err(Error::new("bad value")),
            },
            None => Ok(None),
        }
    }

    let source = SeqSource::new(vec![(Some(1), "A=1\nB=2".to_string())]);
    let cache = map_builder::<String, i32, String, u64, SeqSource, _>()
        .with_source(source)
        .with_processor(RawLineMapProcessor::new(
            parse_kv as fn(String) -> Result<Option<(String, i32)>, Error>,
        ))
        .with_fetch_interval(2)
        .build()
        .unwrap();

    // the cache handle's verified read path: the served snapshot itself
    let served = cache.snapshot();
    assert_eq!(served.version, Some(1));
    assert_eq!(map_get(&served.value, &"A".to_string()).map(|v| *v), Some(1));

    // a view read against one witnessed snapshot: several answers from the
    // same complete snapshot
    let map = cache.cache();
    let snap = map.snapshot();
    assert_eq!(map_get(&snap.value, &"A".to_string()).map(|v| *v), Some(1));
    assert_eq!(map_get(&snap.value, &"B".to_string()).map(|v| *v), Some(2));
    assert_eq!(map_get(&snap.value, &"C".to_string()), None);
    assert_eq!(snap.value.len(), 2);

    // set reads on a concrete vector
    let items = vec!["a".to_string(), "b".to_string()];
    assert!(set_member(&items, &"a".to_string()));
    assert!(!set_member(&items, &"c".to_string()));
}

#[test]
fn served_snapshot_follows_the_cycle() {
    let source = SeqSource::new(vec![
        (Some(1), "first".to_string()),
        (Some(2), "second".to_string()),
    ]);
    let mut cache = object_builder::<String, String, u64, SeqSource, WholeText>()
        .with_source(source)
        .with_processor(WholeText)
        .with_fetch_interval(2)
        .build()
        .unwrap();
    assert_eq!(*cache.snapshot().value, "first".to_string());
    let installed = cache.run_cycle().unwrap().unwrap();
    // the report, the read path and the view all name the same snapshot
    assert!(Arc::ptr_eq(&installed, &cache.snapshot()));
    assert_eq!(*cache.snapshot().value, "second".to_string());
    assert_eq!(*cache.cache().get_current(), "second".to_string());
}
