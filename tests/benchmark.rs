use std::collections::HashMap;

use fst_benchmark::{
    check, judge, load_workload, parse_delimiter, read_workload, report, resolve_delimiter,
    throughput, EmptyWorkload, LoadError, Mismatch, QueryRecord, Replay, Step, ZeroElapsed,
    SAMPLE_INTERVAL, SENTINEL, TIME_BUDGET_MS,
};

fn record(key: &str, expected: u64) -> QueryRecord {
    QueryRecord { key: key.to_string(), expected }
}

fn index(entries: &[(&str, u64)]) -> HashMap<String, u64> {
    entries.iter().map(|(k, v)| (k.to_string(), *v)).collect()
}

/// Makes `n` lookups against `idx`, stopping at the first mismatch.
fn replay_lookups(replay: &mut Replay, idx: &HashMap<String, u64>, n: u64) -> Result<(), Mismatch> {
    for _ in 0..n {
        let actual = idx.get(&replay.current().key).copied();
        replay.record_lookup(actual)?;
    }
    Ok(())
}

#[test]
fn delimiter_tab_escape() {
    assert_eq!(parse_delimiter("\\t"), Ok(b'\t'));
}

#[test]
fn delimiter_first_byte() {
    assert_eq!(parse_delimiter(","), Ok(b','));
    assert_eq!(parse_delimiter(";x"), Ok(b';'));
    assert_eq!(parse_delimiter("\\n"), Ok(b'\\'));
    assert_eq!(parse_delimiter("\t"), Ok(b'\t'));
    assert_eq!(parse_delimiter("é"), Ok(0xc3));
}

#[test]
fn delimiter_empty_rejected() {
    assert!(parse_delimiter("").is_err());
    assert!(resolve_delimiter(Some("")).is_err());
}

#[test]
fn delimiter_defaults_to_comma() {
    assert_eq!(resolve_delimiter(None), Ok(b','));
    assert_eq!(resolve_delimiter(Some("|")), Ok(b'|'));
}

#[test]
fn workload_rows_in_order() {
    let w = read_workload(b"apple,1\nbanana,18446744073709551615\n", b',').unwrap();
    assert_eq!(w, vec![record("apple", 1), record("banana", SENTINEL)]);
}

#[test]
fn workload_tab_delimited() {
    let w = load_workload(b"apple\t1\ncherry\t30\n", Some("\\t")).unwrap();
    assert_eq!(w, vec![record("apple", 1), record("cherry", 30)]);
}

#[test]
fn workload_default_delimiter() {
    let w = load_workload(b"a,7\n", None).unwrap();
    assert_eq!(w, vec![record("a", 7)]);
}

#[test]
fn workload_hex_value() {
    let w = load_workload(b"apple,0x10\n", None).unwrap();
    assert_eq!(w, vec![record("apple", 16)]);
}

#[test]
fn workload_empty_input() {
    let w = load_workload(b"", None).unwrap();
    assert!(w.is_empty());
}

#[test]
fn workload_non_integer_value() {
    assert!(matches!(load_workload(b"apple,one\n", None), Err(LoadError::Parse(_))));
}

#[test]
fn workload_negative_value() {
    assert!(matches!(load_workload(b"apple,-1\n", None), Err(LoadError::Parse(_))));
}

#[test]
fn workload_wrong_field_count() {
    assert!(matches!(
        load_workload(b"apple,1,2\n", None),
        Err(LoadError::FieldCount { row: 0, fields: 3 })
    ));
    assert!(matches!(
        load_workload(b"apple\n", None),
        Err(LoadError::FieldCount { row: 0, fields: 1 })
    ));
    assert!(matches!(
        load_workload(b"a,1\nb,x\nc,2,3\n", None),
        Err(LoadError::Parse(_))
    ));
}

#[test]
fn workload_empty_delimiter() {
    assert!(matches!(load_workload(b"apple,1\n", Some("")), Err(LoadError::Delimiter(_))));
}

#[test]
fn oracle_sentinel_needs_absence() {
    assert!(check(SENTINEL, None));
    assert!(!check(SENTINEL, Some(1)));
    assert!(!check(SENTINEL, Some(SENTINEL)));
}

#[test]
fn oracle_concrete_value() {
    assert!(check(5, Some(5)));
    assert!(!check(5, Some(6)));
    assert!(!check(5, None));
}

#[test]
fn oracle_missing_value_message() {
    let m = judge("pear", 3, None).unwrap_err();
    assert_eq!(m.message(), "Value of key pear mismatch, expect 3, got missing");
}

#[test]
fn empty_workload_does_not_start() {
    assert!(matches!(Replay::start(Vec::new()), Err(EmptyWorkload)));
}

#[test]
fn full_cycles_count() {
    let w = vec![record("a", 1), record("b", 2), record("c", SENTINEL)];
    let idx = index(&[("a", 1), ("b", 2)]);
    let mut replay = Replay::start(w).unwrap();
    replay_lookups(&mut replay, &idx, 4 * 3).unwrap();
    assert_eq!(replay.query_count(), 12);
    assert_eq!(replay.current().key, "a");
    assert!(replay.is_running());
}

#[test]
fn clock_sampled_every_interval() {
    let idx = index(&[("k", 9)]);
    let mut replay = Replay::start(vec![record("k", 9)]).unwrap();
    replay_lookups(&mut replay, &idx, SAMPLE_INTERVAL - 1).unwrap();
    assert_eq!(replay.record_lookup(Some(9)), Ok(Step::SampleClock));
    assert_eq!(replay.record_lookup(Some(9)), Ok(Step::Continue));
    assert_eq!(replay.query_count(), SAMPLE_INTERVAL + 1);
}

#[test]
fn stops_once_budget_spent() {
    let mut replay = Replay::start(vec![record("k", 9)]).unwrap();
    replay.record_sample(TIME_BUDGET_MS - 1);
    assert!(replay.is_running());
    replay.record_sample(TIME_BUDGET_MS);
    assert!(!replay.is_running());
}

#[test]
fn throughput_integer_division() {
    assert_eq!(throughput(1000, 7), Ok(142));
    assert_eq!(throughput(6, 7), Ok(0));
    assert_eq!(throughput(131072, 60001), Ok(2));
}

#[test]
fn throughput_zero_elapsed() {
    assert_eq!(throughput(10, 0), Err(ZeroElapsed));
    assert_eq!(report(10, 0), Err(ZeroElapsed));
}

#[test]
fn report_lines_text() {
    let rep = report(131072, 60001).unwrap();
    assert_eq!(rep.throughput, 2);
    assert_eq!(
        rep.lines(),
        vec!["query count: 131072", "time cost: 60001 ms", "qps: 2"]
    );
}

#[test]
fn scenario_sentinel_absent_key_passes() {
    let w = load_workload(b"apple,1\nbanana,18446744073709551615\n", None).unwrap();
    let idx = index(&[("apple", 1)]);
    let mut replay = Replay::start(w).unwrap();
    replay_lookups(&mut replay, &idx, 2).unwrap();
    assert_eq!(replay.query_count(), 2);
    replay_lookups(&mut replay, &idx, 2).unwrap();
    assert_eq!(replay.query_count(), 4);
    replay.record_sample(TIME_BUDGET_MS + 5);
    assert!(!replay.is_running());
    let lines = report(replay.query_count(), 2).unwrap().lines();
    assert_eq!(lines[2], "qps: 2");
}

#[test]
fn scenario_wrong_value_mismatch() {
    let idx = index(&[("apple", 1)]);
    let mut replay = Replay::start(vec![record("apple", 2)]).unwrap();
    let m = replay_lookups(&mut replay, &idx, 1).unwrap_err();
    assert_eq!(m, Mismatch { key: "apple".to_string(), expected: 2, actual: Some(1) });
    assert_eq!(m.message(), "Value of key apple mismatch, expect 2, got 1");
    assert_eq!(replay.query_count(), 0);
}

#[test]
fn scenario_expected_missing_mismatch() {
    let idx = index(&[("apple", 1)]);
    let mut replay = Replay::start(vec![record("apple", SENTINEL)]).unwrap();
    let m = replay_lookups(&mut replay, &idx, 1).unwrap_err();
    assert_eq!(m.message(), "Value of key apple mismatch, expect missing, got 1");
}
