//! Acquiring the rig, its lock, and its tokens.

use banc::config::{AssistantConfig, LeaseConfig, RigConfig, TargetConfig};
use banc::locate::{Place, Search};
use banc::rig::{
    flock_status, holder_identity, lock_contended, lock_path, lock_timeout, read_token, resolve,
    Acquire, Acquisition, FlockStatus, Located, LockHolder, LockProbe, LockStep, Progress, Rig,
};

fn note() -> LockHolder {
    LockHolder { holder: "bench:12".to_string(), pid: 12, since: 1_700_000_000 }
}

fn found() -> Acquisition {
    let state = Rig::acquire(None).next(Progress::Looked { is_file: true, has_parent: true });
    assert!(matches!(state, Acquisition::Loading(Place::Ancestor(0))));
    state
}

fn loaded(config: RigConfig, timeout: Option<&str>) -> Acquisition {
    found().next(Progress::Loaded {
        path: "p".to_string(),
        parsed: Ok(config),
        timeout: timeout.map(|t| t.to_string()),
        absolute: false,
    })
}

fn token(read: Result<&str, &str>) -> Progress {
    Progress::Token {
        path: "tok".to_string(),
        read: read.map(|t| t.to_string()).map_err(|e| e.to_string()),
    }
}

#[test]
fn a_held_lock_is_awaited_until_the_deadline() {
    assert_eq!(LockStep::take(true, true), LockStep::Held);
    let contended = LockStep::take(false, true);
    assert_eq!(contended, LockStep::GiveUp, "second take must fail while lock is held");
    assert_eq!(LockStep::take(false, false), LockStep::Retry);
    assert_eq!(LockStep::take(true, false), LockStep::Held);
}

#[test]
fn contender_timeout_names_the_holder() {
    let note = note();
    let err = lock_contended("target/banc.lock", Some(note.clone()), 0);
    assert!(err.contains(&note.holder), "timeout must name holder: {err}");
    assert!(
        err.contains("deleting the lock file frees nothing"),
        "timeout must warn against rm: {err}"
    );
    assert_eq!(
        err,
        "rig lock target/banc.lock held by 'bench:12' (pid 12, since unix 1700000000) for over \
         0ns; if that pid is wedged, end it (killing the process releases the flock) \u{2014} \
         deleting the lock file frees nothing"
    );
    assert!(lock_contended("p", None, 300_000_000_000)
        .starts_with("rig lock p held by an unidentified process for over 300s; "));
}

#[test]
fn a_look_at_the_lock_says_who_holds_it() {
    assert!(matches!(flock_status("p", LockProbe::Missing), Ok(FlockStatus::Free)));
    assert!(matches!(flock_status("p", LockProbe::Taken), Ok(FlockStatus::Free)));
    assert!(matches!(flock_status("p", LockProbe::Refused(None)), Ok(FlockStatus::Held(None))));
    match flock_status("p", LockProbe::Refused(Some(note()))) {
        Ok(FlockStatus::Held(Some(h))) => assert_eq!(h.pid, 12),
        other => panic!("unexpected: {other:?}"),
    }
    assert_eq!(
        flock_status("p", LockProbe::Unopenable("denied".to_string())).unwrap_err(),
        "opening rig lock p: denied"
    );
    assert_eq!(flock_status("p", LockProbe::Untriable("io".to_string())).unwrap_err(), "io");
}

#[test]
fn no_config_skips() {
    let state = Rig::acquire(None);
    let state = state.next(Progress::Looked { is_file: false, has_parent: true });
    assert!(matches!(state, Acquisition::Searching(Search::CheckAncestor(1))));
    match state.next(Progress::Looked { is_file: false, has_parent: false }) {
        Acquisition::Stopped(Acquire::Skip(reason)) => assert_eq!(
            reason,
            "no rig: banc-rig.toml not found (set BANC_RIG or create one to run on hardware)"
        ),
        other => panic!("unexpected: {other:?}"),
    }
}

#[test]
fn a_dangling_setting_fails() {
    let state = Rig::acquire(Some("/gone".to_string()));
    match state.next(Progress::Looked { is_file: false, has_parent: true }) {
        Acquisition::Stopped(Acquire::Fail(e)) => {
            assert_eq!(e, "BANC_RIG points at /gone which does not exist")
        }
        other => panic!("unexpected: {other:?}"),
    }
}

#[test]
fn an_unusable_config_fails() {
    let state = found().next(Progress::Loaded {
        path: "p".to_string(),
        parsed: Err("d".to_string()),
        timeout: None,
        absolute: false,
    });
    assert!(matches!(state, Acquisition::Stopped(Acquire::Fail(e)) if e == "parsing p: d"));
    let state = found().next(Progress::Unreadable("reading p: io".to_string()));
    assert!(matches!(state, Acquisition::Stopped(Acquire::Fail(e)) if e == "reading p: io"));
}

#[test]
fn a_config_that_cannot_be_run_gets_no_rig() {
    let mut config = RigConfig::default();
    config.rig.lease =
        Some(LeaseConfig { addr: "  ".to_string(), token_file: "tok".to_string() });
    match loaded(config, None) {
        Acquisition::Stopped(Acquire::Fail(e)) => {
            assert!(e.starts_with("invalid rig config p: "), "{e}")
        }
        other => panic!("unexpected: {other:?}"),
    }
}

#[test]
fn without_a_lease_the_lock_is_taken() {
    let state = loaded(RigConfig::default(), Some("7"));
    match &state {
        Acquisition::TakingLock { path, timeout_s, .. } => {
            assert!(matches!(path, Located::InTargetDir("banc.lock")));
            assert_eq!(*timeout_s, 7);
        }
        other => panic!("unexpected: {other:?}"),
    }
    assert!(matches!(state.next(Progress::Taken(Ok(()))), Acquisition::Ready(_)));
    let state = loaded(RigConfig::default(), None);
    match state.next(Progress::Taken(Err("held".to_string()))) {
        Acquisition::Stopped(Acquire::Fail(e)) => assert_eq!(e, "held"),
        other => panic!("unexpected: {other:?}"),
    }
}

#[test]
fn a_lease_replaces_the_lock() {
    let mut config = RigConfig::default();
    config.rig.lock_file = Some("x.lock".to_string());
    config.rig.lease =
        Some(LeaseConfig { addr: "rig:9".to_string(), token_file: "tok".to_string() });
    let state = loaded(config.clone(), Some("soon"));
    match &state {
        Acquisition::ReadingToken { lease, timeout_s, .. } => {
            assert_eq!(lease.token_file, "tok");
            assert_eq!(*timeout_s, 300);
        }
        other => panic!("unexpected: {other:?}"),
    }
    let state = state.next(token(Ok(" s3\n")));
    match &state {
        Acquisition::TakingLease { addr, token, .. } => {
            assert_eq!((addr.as_str(), token.as_str()), ("rig:9", "s3"))
        }
        other => panic!("unexpected: {other:?}"),
    }
    match state.next(Progress::Taken(Err("busy".to_string()))) {
        Acquisition::Stopped(Acquire::Fail(e)) => assert_eq!(e, "acquiring rig lease: busy"),
        other => panic!("unexpected: {other:?}"),
    }
    match loaded(config.clone(), None).next(token(Ok(" \n"))) {
        Acquisition::Stopped(Acquire::Fail(e)) => assert_eq!(e, "token file tok is empty"),
        other => panic!("unexpected: {other:?}"),
    }
    match loaded(config, None).next(token(Err("gone"))) {
        Acquisition::Stopped(Acquire::Fail(e)) => assert_eq!(e, "reading token file tok: gone"),
        other => panic!("unexpected: {other:?}"),
    }
}

#[test]
fn stray_events_change_nothing() {
    let state = Rig::acquire(None).next(Progress::Taken(Ok(())));
    assert!(matches!(state, Acquisition::Searching(Search::CheckAncestor(0))));
}

#[test]
fn tokens_are_trimmed_and_not_empty() {
    assert_eq!(read_token("p", Ok(" abc\n".to_string())).unwrap(), "abc");
    assert_eq!(
        read_token("p", Ok(" \n\t".to_string())).unwrap_err().to_string(),
        "token file p is empty"
    );
    assert_eq!(
        read_token("p", Err("gone".to_string())).unwrap_err().to_string(),
        "reading token file p: gone"
    );
}

#[test]
fn timeouts_default_to_five_minutes() {
    assert_eq!(lock_timeout(None), 300);
    assert_eq!(lock_timeout(Some("0")), 0);
    assert_eq!(lock_timeout(Some("+15")), 15);
    assert_eq!(lock_timeout(Some("18446744073709551615")), u64::MAX);
    assert_eq!(lock_timeout(Some("18446744073709551616")), 300);
    assert_eq!(lock_timeout(Some("")), 300);
    assert_eq!(lock_timeout(Some("-1")), 300);
    assert_eq!(lock_timeout(Some(" 1")), 300);
}

#[test]
fn holders_have_a_name() {
    assert_eq!(holder_identity(Some("ci".to_string()), Some("h".to_string()), 1), "ci");
    assert_eq!(holder_identity(None, Some("h".to_string()), 41), "h:41");
    assert_eq!(holder_identity(None, None, 41), "?:41");
}

#[test]
fn paths_are_taken_from_the_config_dir() {
    assert!(matches!(resolve("/a".to_string(), true), Located::AsIs(p) if p == "/a"));
    assert!(matches!(resolve("a".to_string(), false), Located::InConfigDir(p) if p == "a"));
    let mut config = RigConfig::default();
    assert!(matches!(lock_path(&config, false), Located::InTargetDir("banc.lock")));
    config.rig.lock_file = Some("l".to_string());
    assert!(matches!(lock_path(&config, false), Located::InConfigDir(p) if p == "l"));
    assert!(matches!(Rig::artifacts_dir(None), Located::InTargetDir("banc-artifacts")));
    assert!(matches!(Rig::artifacts_dir(Some("/o".to_string())), Located::AsIs(p) if p == "/o"));
}

#[test]
fn a_rig_knows_its_parts() {
    let mut config = RigConfig::default();
    config.assistants.push(AssistantConfig {
        name: "a0".to_string(),
        serial: Some("S".to_string()),
        product: None,
        addr: None,
        token_file: None,
        unique_id: None,
    });
    let rig = Rig { config };
    assert_eq!(rig.assistant("a0").unwrap().serial.as_deref(), Some("S"));
    assert_eq!(rig.assistant("a1").unwrap_err(), "no assistant 'a1' in rig config");
    assert!(rig.target_token().is_none());
    let mut config = rig.config;
    config.target = Some(TargetConfig {
        chip: "c".to_string(),
        probe: None,
        probe_host: None,
        token_file: Some("t".to_string()),
    });
    assert_eq!(Rig { config }.target_token().map(|t| t.as_str()), Some("t"));
}
