//! The evidence log of a test.

use banc::evidence::{sanitize, Evidence, MAX_ENTRIES};

#[test]
fn tail_returns_last_lines() {
    let mut ev = Evidence::new("t");
    for i in 0..10 {
        ev.record("test", format!("line {i}"), 0);
    }
    let tail = ev.tail(3);
    assert!(tail.contains("line 7") && tail.contains("line 9"));
    assert!(!tail.contains("line 6"));
}

#[test]
fn persist_writes_file() {
    let mut ev = Evidence::new("suite/case:1");
    ev.record("x", "hello".to_string(), 0);
    let (name, content) = ev.persist();
    assert_eq!(name, "suite_case_1.evidence.log");
    assert!(content.contains("hello"));
}

#[test]
fn entries_are_capped_and_drops_are_counted() {
    let mut ev = Evidence::new("t");
    for i in 0..(MAX_ENTRIES + 100) {
        ev.record("test", format!("line {i}"), 0);
    }
    assert_eq!(ev.entries.len(), MAX_ENTRIES, "retained set stays capped");
    assert_eq!(ev.dropped, 100, "dropped count is exact");
    // Oldest survivor is the 100th line; the first 100 were evicted.
    assert_eq!(ev.entries.front().unwrap().line, "line 100");
}

#[test]
fn tail_notes_dropped_entries() {
    let mut ev = Evidence::new("t");
    for i in 0..(MAX_ENTRIES + 5) {
        ev.record("test", format!("line {i}"), 0);
    }
    // A tail covering the whole retained set surfaces the drop notice.
    let tail = ev.tail(MAX_ENTRIES);
    assert!(tail.contains("5 earlier entries dropped"), "missing drop notice");
    // One that does not cover it has nothing to say of what was dropped.
    assert!(!ev.tail(MAX_ENTRIES - 1).contains("earlier entries dropped"));
    assert!(ev.persist().1.starts_with("[... 5 earlier entries dropped (evidence cap) ...]\n"));
}

#[test]
fn sanitize_neutralizes_separators_and_traversal() {
    assert_eq!(sanitize("suite/case:1"), "suite_case_1");
    assert_eq!(sanitize(r"..\..\etc"), "______etc");
    assert_eq!(sanitize("ok.name-1"), "ok_name-1");
}

#[test]
fn entries_are_shown_in_milliseconds() {
    let mut ev = Evidence::new("t");
    assert!(ev.is_empty());
    ev.record("node", "up".to_string(), 1_234_567);
    ev.record("pin", "edge".to_string(), 5);
    assert!(!ev.is_empty());
    assert_eq!(ev.tail(2), "[  1234.567ms node] up\n[     0.005ms pin] edge\n");
    assert_eq!(ev.tail(1), "[     0.005ms pin] edge\n");
    assert_eq!(ev.tail(0), "");
    assert_eq!(ev.tail(9), ev.tail(2));
    // A time that is wider than its column is not cut.
    ev.record("pin", "late".to_string(), 12_345_678_901_234);
    assert_eq!(ev.tail(1), "[12345678901.234ms pin] late\n");
}

#[test]
fn persisted_log_holds_everything() {
    let mut ev = Evidence::new("a b");
    let (name, content) = ev.persist();
    assert_eq!(name, "a_b.evidence.log");
    assert_eq!(content, "");
    ev.record("x", "one".to_string(), 0);
    ev.record("y", "two".to_string(), 1_000);
    assert_eq!(ev.persist().1, "[     0.000ms x] one\n[     1.000ms y] two\n");
}

#[test]
fn sanitized_names_hold_no_separator() {
    assert_eq!(sanitize(""), "");
    assert_eq!(sanitize("a\u{e9}_Z9"), "a__Z9");
    assert_eq!(sanitize("../x"), "___x");
}
