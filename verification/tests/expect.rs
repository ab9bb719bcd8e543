//! Expectations on event streams, and sweeps over setpoints.

use banc::expect::{expect_matching, expect_quiet, ExpectError, Seen};
use banc::instrument::{for_each_setpoint, Stage, SweepError, SweepEvent};

/// Feeds events to `expect_matching` until it decides; what is left after
/// them decides the rest.
fn wait_for_seven(events: &[u32], end: Seen<u32>, deadline_ns: u128) -> Result<u32, ExpectError> {
    for &event in events {
        if let Some(verdict) = expect_matching(Seen::Event { event, matches: event == 7 }, deadline_ns) {
            return verdict;
        }
    }
    expect_matching(end, deadline_ns).unwrap()
}

fn watch_for_seven(events: &[u32], end: Seen<String>) -> Result<(), ExpectError> {
    for &event in events {
        let seen = Seen::Event { event: format!("{event:?}"), matches: event == 7 };
        if let Some(verdict) = expect_quiet(seen) {
            return verdict;
        }
    }
    expect_quiet(end).unwrap()
}

#[test]
fn matching_event_found_among_noise() {
    let got = wait_for_seven(&[1, 7], Seen::Elapsed, 100_000_000).unwrap();
    assert_eq!(got, 7);
}

#[test]
fn deadline_elapses_without_match() {
    let err = wait_for_seven(&[1], Seen::Elapsed, 50_000_000);
    assert!(matches!(err, Err(ExpectError::Deadline(_))));
    assert_eq!(
        err.unwrap_err().to_string(),
        "deadline (50ms) elapsed without a matching event"
    );
}

#[test]
fn quiet_window_passes_and_catches_offender() {
    watch_for_seven(&[1], Seen::Elapsed).unwrap();
    let err = watch_for_seven(&[7], Seen::Elapsed);
    assert!(matches!(err, Err(ExpectError::Unexpected(_))));
    assert_eq!(err.unwrap_err().to_string(), "expected silence but observed: 7");
}

#[test]
fn closed_source_fails_quiet_assertion() {
    // A dead subscription must not read as silence.
    let err = watch_for_seven(&[], Seen::Closed);
    assert!(matches!(err, Err(ExpectError::Closed)));
}

#[test]
fn closed_source_fails_the_wait() {
    let err = wait_for_seven(&[1, 2], Seen::Closed, 1).unwrap_err();
    assert_eq!(err.to_string(), "event source closed without a matching event");
}

/// Runs a sweep, noting which setpoints are applied and measured.
fn run<B>(
    setpoints: &[u32],
    mut apply: impl FnMut(&u32) -> Result<(), String>,
    mut body: impl FnMut(&u32) -> Result<B, String>,
) -> (Vec<(u32, Result<B, SweepError<String>>)>, Vec<String>) {
    let mut calls = Vec::new();
    let mut setpoints = setpoints.iter().copied();
    let mut sweep = for_each_setpoint();
    loop {
        let event = match &sweep.stage {
            Stage::Draw => SweepEvent::Drawn(setpoints.next()),
            Stage::Apply(sp) => {
                calls.push(format!("apply {sp}"));
                SweepEvent::Applied(apply(sp))
            }
            Stage::Measure(sp) => {
                calls.push(format!("measure {sp}"));
                SweepEvent::Measured(body(sp))
            }
            Stage::Done => return (sweep.results, calls),
        };
        sweep = sweep.next(event);
    }
}

#[test]
fn sweep_collects_all_results() {
    let mut applied = Vec::new();
    let (results, calls) = run(
        &[10u32, 20, 30],
        |sp| {
            applied.push(*sp);
            Ok(())
        },
        |sp| {
            if *sp == 20 {
                return Err("mid failure".to_string());
            }
            Ok(*sp * 2)
        },
    );
    assert_eq!(applied, vec![10, 20, 30]);
    assert_eq!(results.len(), 3);
    assert_eq!(*results[0].1.as_ref().unwrap(), 20);
    assert!(results[1].1.is_err());
    assert_eq!(*results[2].1.as_ref().unwrap(), 60);
    assert!(matches!(&results[1], (20, Err(SweepError::Body(e))) if e == "mid failure"));
    assert_eq!(
        calls,
        vec!["apply 10", "measure 10", "apply 20", "measure 20", "apply 30", "measure 30"]
    );
}

#[test]
fn a_setpoint_that_cannot_be_applied_is_not_measured() {
    let (results, calls) = run(
        &[1u32, 2],
        |sp| if *sp == 1 { Err("out of range".to_string()) } else { Ok(()) },
        |sp| Ok(*sp),
    );
    assert_eq!(calls, vec!["apply 1", "apply 2", "measure 2"]);
    assert_eq!((results[0].0, results[1].0), (1, 2));
    assert_eq!(*results[1].1.as_ref().unwrap(), 2);
    let mut results = results.into_iter();
    let (context, reason) = results.next().unwrap().1.unwrap_err().parts();
    assert_eq!((context, reason.as_str()), (Some("applying setpoint"), "out of range"));
    assert_eq!(SweepError::Body("x").parts(), (None, "x"));
}

#[test]
fn an_empty_sweep_calls_nothing() {
    let (results, calls) = run(&[], |_| Ok(()), |sp| Ok(*sp));
    assert!(results.is_empty() && calls.is_empty());
}
