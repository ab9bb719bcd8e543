//! Trials, their reports and their records.

use banc::evidence::Evidence;
use banc::results::{suite_name, Outcome, TestRecord, SCHEMA};
use banc::rig::Acquire;
use banc::runner::{
    bare_message, failure_message, finished_record, skipped_record, AfterAttempt, BancTest,
    RigState, TrialStart,
};
use banc::text::{eq_ignore_case, hex16, parse_u64, show_span, trim, trim_end};

#[test]
fn retries_end_with_the_last_attempt() {
    let mut test = BancTest::new("t".to_string());
    assert_eq!(test.attempts, 1);
    let fail = || Err(Some("flaky".to_string()));
    assert!(matches!(test.after_attempt(1, fail()), AfterAttempt::Failed(Some(m)) if m == "flaky"));
    test.attempts = 2;
    assert!(matches!(test.after_attempt(1, fail()), AfterAttempt::Again));
    assert!(matches!(test.after_attempt(2, Ok(())), AfterAttempt::Passed));
    assert!(matches!(test.after_attempt(2, Err(None)), AfterAttempt::Failed(None)));
}

#[test]
fn a_machine_without_a_rig_ignores_its_trials() {
    assert!(matches!(RigState::of(Ok(())).run(), TrialStart::Run));
    let skip = RigState::of(Err(Acquire::Skip("no rig".to_string())));
    assert!(matches!(skip.run(), TrialStart::Ignore(r) if r == "no rig"));
    let fail = RigState::of(Err(Acquire::Fail("bad lock".to_string())));
    assert!(matches!(fail.run(), TrialStart::Fail(e) if e == "rig unavailable: bad lock"));
}

#[test]
fn failures_carry_their_evidence() {
    let mut evidence = Evidence::new("t");
    let ok = || Ok("/a/t.evidence.log".to_string());
    assert_eq!(failure_message(Some("boom".to_string()), &evidence, ok()), "boom");
    assert_eq!(failure_message(None, &evidence, ok()), "test failed");
    assert_eq!(bare_message(Some("boom".to_string())), "boom");
    assert_eq!(bare_message(None), "test failed");
    evidence.record("pin", "high".to_string(), 1_000);
    assert_eq!(
        failure_message(Some("boom".to_string()), &evidence, ok()),
        "boom\n--- evidence (tail) ---\n[     1.000ms pin] high\nfull log: /a/t.evidence.log"
    );
    assert_eq!(
        failure_message(None, &evidence, Err("disk full".to_string())),
        "test failed\n--- evidence (tail; persist failed: disk full) ---\n\
         [     1.000ms pin] high\n"
    );
}

#[test]
fn records_say_how_a_trial_ended() {
    let new = TestRecord::new("suite", "a", Outcome::Passed, 5);
    assert_eq!((new.schema, new.attempts, new.duration_ms), (SCHEMA, 1, 0));
    assert!(new.reason.is_none() && new.evidence.is_none());

    let skipped = skipped_record("suite", "a", "no rig".to_string(), 6);
    assert_eq!(skipped.outcome, Outcome::Skipped);
    assert_eq!(skipped.reason.as_deref(), Some("no rig"));

    let passed = finished_record("suite", "a", None, 2, 30, 7, None);
    assert_eq!(passed.outcome, Outcome::Passed);
    assert_eq!((passed.attempts, passed.duration_ms, passed.finished_at), (2, 30, 7));

    let failed = finished_record(
        "suite",
        "b",
        Some("boom".to_string()),
        1,
        30,
        7,
        Some("/a/b.evidence.log".to_string()),
    );
    assert_eq!(failed.outcome, Outcome::Failed);
    assert_eq!(failed.reason.as_deref(), Some("boom"));
    assert_eq!(failed.evidence.as_deref(), Some("/a/b.evidence.log"));
}

#[test]
fn suites_keep_their_name_over_rebuilds() {
    assert_eq!(suite_name(Some("scenarios_l072-0123456789abcdef")), "scenarios_l072");
    assert_eq!(suite_name(Some("scenarios-l072")), "scenarios-l072");
    assert_eq!(suite_name(Some("a-b-FEDCBA9876543210")), "a-b");
    assert_eq!(suite_name(Some("a-0123456789abcdeg")), "a-0123456789abcdeg");
    assert_eq!(suite_name(Some("a-0123456789abcde")), "a-0123456789abcde");
    assert_eq!(suite_name(Some("plain")), "plain");
    assert_eq!(suite_name(None), "unknown");
}

#[test]
fn spans_are_shown_like_durations() {
    for ns in [
        0u64,
        1,
        999,
        1_000,
        1_500,
        999_999,
        1_000_000,
        1_050_000,
        100_000_000,
        1_000_000_000,
        1_000_000_001,
        2_500_000_000,
        300_000_000_000,
        u64::MAX,
    ] {
        let want = format!("{:?}", std::time::Duration::from_nanos(ns));
        assert_eq!(show_span(ns as u128), want);
    }
}

#[test]
fn text_helpers_agree_with_std() {
    for s in ["", " ", "a", " a ", "\u{2003}a b\u{a0}\n", "\t\r\n"] {
        assert_eq!(trim(s), s.trim());
        assert_eq!(trim_end(s), s.trim_end());
    }
    for s in ["", "0", "+1", "-1", "007", "1a", "+", "18446744073709551616"] {
        assert_eq!(parse_u64(s), s.parse::<u64>().ok());
    }
    for n in [0u64, 1, 255, u64::MAX] {
        assert_eq!(hex16(n), format!("{n:016X}"));
    }
    assert!(eq_ignore_case("aBc", "AbC"));
    assert!(!eq_ignore_case("abc", "abcd"));
    assert!(!eq_ignore_case("\u{e9}", "\u{c9}"));
}
