use fsm_core::jsonl::{
    collect_records, fast_u64_to_string, jsonl_to_compact_array, jsonl_to_pretty_array,
    jsonl_to_pretty_array_joined, jsonl_to_pretty_array_located, jsonl_to_pretty_array_simd,
    transform_filename_field, JsonPrinter,
};
use serde_json::Value;

const LOG: &str = "{\"filename\":\"src/a.rs\",\"line_number\":12,\"msg\":\"hi\"}\n\
not json\n\
\n\
{\"level\":\"info\"}\n";

#[test]
fn filename_gets_the_line_number() {
    let mut v: Value = serde_json::from_str(r#"{"filename":"x.rs","line_number":5}"#).unwrap();
    transform_filename_field(&mut v);
    assert_eq!(v["filename"], Value::String("x.rs:5".into()));
    let mut w: Value = serde_json::from_str(r#"{"filename":"x.rs","line_number":"5"}"#).unwrap();
    transform_filename_field(&mut w);
    assert_eq!(w["filename"], Value::String("x.rs".into()));
}

#[test]
fn records_skip_lines_that_are_not_json() {
    let recs = collect_records(LOG.as_bytes(), JsonPrinter::SerdeCompact, false, true).unwrap();
    assert_eq!(recs.len(), 2);
    let first: Value = serde_json::from_str(&recs[0]).unwrap();
    assert_eq!(first["filename"], Value::String("src/a.rs:12".into()));
    assert_eq!(first["msg"], Value::String("hi".into()));
    let strict = collect_records(LOG.as_bytes(), JsonPrinter::SerdeCompact, true, true).unwrap();
    assert_eq!(strict.len(), 1);
}

#[test]
fn pretty_array_of_the_log() {
    let out = jsonl_to_pretty_array(LOG.as_bytes());
    let parsed: Value = serde_json::from_str(&out).unwrap();
    let arr = parsed.as_array().unwrap();
    assert_eq!(arr.len(), 2);
    assert_eq!(arr[0]["filename"], Value::String("src/a.rs:12".into()));
    assert_eq!(arr[1]["level"], Value::String("info".into()));
    assert!(out.starts_with("[\n{\n  \""));
    assert!(out.ends_with("}\n]"));
    assert_eq!(jsonl_to_pretty_array(b""), "[\n]");
    assert_eq!(jsonl_to_pretty_array(b"garbage\n"), "[\n]");
    assert_eq!(jsonl_to_pretty_array_joined(b""), "[\n\n]");
}

#[test]
fn compact_array_of_the_log() {
    let out = jsonl_to_compact_array(LOG.as_bytes()).unwrap();
    assert!(out.starts_with("[\n  {"));
    assert!(out.contains("},\n  {"));
    let parsed: Value = serde_json::from_str(&out).unwrap();
    assert_eq!(parsed.as_array().unwrap().len(), 2);
    assert_eq!(jsonl_to_compact_array(b"{\"a\":1}").unwrap(), "[\n  {\"a\":1}\n]");
}

#[test]
fn simd_pretty_variants() {
    let all = jsonl_to_pretty_array_simd(LOG.as_bytes()).unwrap();
    let parsed: Value = serde_json::from_str(&all).unwrap();
    assert_eq!(parsed.as_array().unwrap().len(), 2);
    let located = jsonl_to_pretty_array_located(LOG.as_bytes()).unwrap();
    let parsed: Value = serde_json::from_str(&located).unwrap();
    assert_eq!(parsed.as_array().unwrap().len(), 1);
    assert_eq!(jsonl_to_pretty_array_simd(b"").unwrap(), "[\n\n]");
}

#[test]
fn decimal_rendering() {
    assert_eq!(fast_u64_to_string(0), "0");
    assert_eq!(fast_u64_to_string(1234567890), "1234567890");
    assert_eq!(fast_u64_to_string(u64::MAX), u64::MAX.to_string());
}
