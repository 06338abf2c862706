use std::sync::Arc;

use full_dataset_cache::processors::{
    map_insert, set_insert, RawConfigProcessor, RawLineMapProcessor, RawLineSetProcessor,
};
use full_dataset_cache::util::Error;

fn parse_kv(line: String) -> Result<Option<(String, i32)>, Error> {
    let trimmed = line.trim();
    if trimmed.is_empty() || trimmed.starts_with('#') {
        return Ok(None);
    }
    match trimmed.split_once('=') {
        Some((k, v)) => match v.parse::<i32>() {
            Ok(n) => Ok(Some((k.to_string(), n))),
            Err(_) => Err(Error::new("bad value")),
        },
        None => Err(Error::new("missing separator")),
    }
}

fn kv_processor() -> RawLineMapProcessor<
    String,
    i32,
    fn(String) -> Result<Option<(String, i32)>, Error>,
> {
    RawLineMapProcessor::new(parse_kv)
}

fn pairs(m: &Vec<(String, Arc<i32>)>) -> Vec<(String, i32)> {
    m.iter().map(|(k, v)| (k.clone(), **v)).collect()
}

#[test]
fn map_processor_parses_lines() {
    let m = kv_processor().process("A=1\nB=2\n".to_string()).unwrap();
    assert_eq!(pairs(&m), vec![("A".to_string(), 1), ("B".to_string(), 2)]);
}

#[test]
fn map_processor_skips_comments_and_blanks() {
    let m = kv_processor()
        .process("A=3\n#comment\n\nC=5\n".to_string())
        .unwrap();
    assert_eq!(pairs(&m), vec![("A".to_string(), 3), ("C".to_string(), 5)]);
}

#[test]
fn map_processor_last_value_wins() {
    let m = kv_processor().process("A=1\nA=2\nB=7\n".to_string()).unwrap();
    assert_eq!(pairs(&m), vec![("A".to_string(), 2), ("B".to_string(), 7)]);
}

#[test]
fn map_processor_surfaces_parse_errors() {
    let r = kv_processor().process("A=1\nnot-a-pair\n".to_string());
    assert_eq!(r.err().unwrap().message(), "missing separator");

    let r = kv_processor().process("A=x\n".to_string());
    assert_eq!(r.err().unwrap().message(), "bad value");
}

#[test]
fn map_processor_empty_payload_is_empty_map() {
    let m = kv_processor().process(String::new()).unwrap();
    assert!(m.is_empty());
}

#[test]
fn map_processor_handles_crlf() {
    let m = kv_processor().process("A=1\r\nB=2\r\n".to_string()).unwrap();
    assert_eq!(pairs(&m), vec![("A".to_string(), 1), ("B".to_string(), 2)]);
}

fn parse_word(line: String) -> Result<Option<String>, Error> {
    let trimmed = line.trim();
    if trimmed.is_empty() || trimmed.starts_with('#') {
        Ok(None)
    } else {
        Ok(Some(trimmed.to_string()))
    }
}

#[test]
fn set_processor_deduplicates() {
    let p: RawLineSetProcessor<String, fn(String) -> Result<Option<String>, Error>> =
        RawLineSetProcessor::new(parse_word);
    let s = p.process("a\nb\na\nc\nb\n".to_string()).unwrap();
    assert_eq!(s, vec!["a".to_string(), "b".to_string(), "c".to_string()]);
}

#[test]
fn map_insert_replaces_in_place_and_appends() {
    let mut m: Vec<(String, Arc<i32>)> = Vec::new();
    map_insert(&mut m, "A".to_string(), Arc::new(1));
    map_insert(&mut m, "B".to_string(), Arc::new(2));
    map_insert(&mut m, "A".to_string(), Arc::new(3));
    assert_eq!(pairs(&m), vec![("A".to_string(), 3), ("B".to_string(), 2)]);
}

#[test]
fn set_insert_skips_present_values() {
    let mut s: Vec<String> = Vec::new();
    set_insert(&mut s, "a".to_string());
    set_insert(&mut s, "b".to_string());
    set_insert(&mut s, "a".to_string());
    assert_eq!(s, vec!["a".to_string(), "b".to_string()]);
}
