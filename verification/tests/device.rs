//! The device half of a paired scenario.

use banc::device::{derived_test_path, scenario_verdict, DeviceSuite, DeviceTest, Exit, State};

fn suite(program: &str) -> DeviceSuite {
    let mut s = DeviceSuite::new("/tmp".to_string(), "join".to_string());
    s.program = program.to_string();
    s
}

fn started(program: &str) -> DeviceTest {
    let mut dt = suite(program).test("tests::x".to_string());
    assert!(dt.start(true).is_some());
    dt
}

#[test]
fn verdict_tracks_child_exit() {
    let mut ok = started("true");
    ok.exited(Exit::Succeeded);
    assert!(ok.verdict().is_ok());
    // Cached: a second consultation agrees.
    assert!(ok.verdict().is_ok());

    let mut bad = started("false");
    bad.exited(Exit::Failed("exit status: 1".to_string()));
    assert_eq!(
        bad.verdict().unwrap_err(),
        "device-side test 'tests::x' reported failure (exit status: 1)"
    );
    assert!(bad.verdict().is_err());
}

#[test]
fn missing_crate_dir_fails_at_start_with_context() {
    let mut suite = DeviceSuite::new("/nonexistent/fw-crate".to_string(), "join".to_string());
    suite.program = "true".to_string();
    let mut dt = suite.test("tests::x".to_string());
    assert!(dt.start(false).is_none());
    // Available immediately as context, before any verdict.
    let ctx = dt.failure_context().unwrap();
    assert!(ctx.contains("does not exist"), "unexpected context: {ctx}");
    assert_eq!(ctx, "device crate dir /nonexistent/fw-crate does not exist");
    assert!(dt.verdict().is_err());
}

#[test]
fn no_failure_context_while_device_still_running() {
    let dt = started("banc-slow");
    assert!(dt.failure_context().is_none());
    // Not consumed: the handle is still awaitable afterwards.
    assert!(matches!(dt.state, State::Running));
}

#[test]
fn never_started_is_a_failure() {
    let dt = suite("true").test("tests::x".to_string());
    let err = dt.verdict().unwrap_err();
    assert!(err.contains("never started"));
    assert!(dt.failure_context().is_none());
}

#[test]
fn spawn_error_is_reported_not_panicked() {
    let mut dt = started("/nonexistent/no-such-program");
    dt.exited(Exit::SpawnFailed("not found".to_string()));
    assert_eq!(
        dt.verdict().unwrap_err(),
        "spawning /nonexistent/no-such-program in /tmp: not found"
    );
    let mut dt = started("true");
    dt.exited(Exit::TaskFailed("panicked".to_string()));
    assert_eq!(dt.verdict().unwrap_err(), "device test task failed: panicked");
}

#[test]
fn the_child_runs_one_exact_test() {
    let mut s = DeviceSuite::new("fw".to_string(), "join".to_string());
    assert_eq!(s.program, "cargo");
    s.cargo_args.push("--release".to_string());
    let mut dt = s.test("tests::rx2".to_string());
    assert_eq!(dt.test_path(), "tests::rx2");
    assert_eq!(
        dt.start(true).unwrap(),
        vec!["test", "--release", "--test", "join", "--", "--exact", "tests::rx2"]
    );
}

#[test]
fn scenarios_need_both_halves() {
    assert_eq!(derived_test_path("join_ok"), "tests::join_ok");

    let idle = suite("true").test("tests::x".to_string());
    assert!(scenario_verdict(Ok(()), &idle).is_err());

    let mut good = started("true");
    good.exited(Exit::Succeeded);
    assert!(scenario_verdict(Ok(()), &good).is_ok());
    assert_eq!(scenario_verdict(Err(Some("late".to_string())), &good).unwrap_err(), "late");
    assert_eq!(scenario_verdict(Err(None), &good).unwrap_err(), "test failed");

    let mut bad = started("false");
    bad.exited(Exit::Failed("1".to_string()));
    assert!(scenario_verdict(Ok(()), &bad).is_err());
    assert_eq!(
        scenario_verdict(Err(Some("late".to_string())), &bad).unwrap_err(),
        "late\ndevice side: device-side test 'tests::x' reported failure (1)"
    );
}
