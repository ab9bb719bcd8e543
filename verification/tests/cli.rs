//! The `banc` command line.

use banc::cli::{
    host_port, probe, probe_token_file, tcp_reach, Command, NoConfig, ProbeRun, Reach, StatusFound,
    EXIT_ABSENT, EXIT_FAILURE, EXIT_OK,
};
use banc::config::{
    AssistantConfig, InstrumentConfig, LeaseConfig, RigConfig, TargetConfig,
};
use banc::doctor::{after_token, doctor, heading, inventory, lease_detail, lock_detail, Check, Doctor};
use banc::lease_client::LeaseStatus;
use banc::rig::{FlockStatus, LockHolder};

fn words(line: &str) -> Vec<String> {
    line.split_whitespace().map(|w| w.to_string()).collect()
}

fn target(probe_host: Option<&str>) -> TargetConfig {
    TargetConfig {
        chip: "nRF52840".to_string(),
        probe: Some("1366:1051".to_string()),
        probe_host: probe_host.map(|h| h.to_string()),
        token_file: Some("tok".to_string()),
    }
}

fn holder() -> LockHolder {
    LockHolder { holder: "ci".to_string(), pid: 3, since: 99 }
}

#[test]
fn commands_are_recognised() {
    assert!(matches!(Command::parse(&words("doctor")), Command::Doctor));
    assert!(matches!(Command::parse(&words("rig status")), Command::RigStatus));
    match Command::parse(&words("probe reset --verbose x")) {
        Command::Probe { verb, rest } => {
            assert_eq!(verb, "reset");
            assert_eq!(rest, vec!["--verbose", "x"]);
        }
        other => panic!("unexpected: {other:?}"),
    }
    for help in ["", "--help", "-h", "help"] {
        assert!(matches!(Command::parse(&words(help)), Command::Help));
    }
    assert!(matches!(Command::parse(&words("probe")), Command::Unknown(_)));
    assert!(matches!(Command::parse(&words("rig status now")), Command::Unknown(w) if w == "rig status now"));
    assert!(matches!(Command::parse(&words("doctor x")), Command::Unknown(_)));
}

#[test]
fn a_missing_config_is_not_a_broken_one() {
    let none = NoConfig::NoRig.load_config();
    assert_eq!(
        none.text,
        "no rig here: banc-rig.toml not found (set BANC_RIG or run from a rig checkout)"
    );
    assert_eq!(none.exit, EXIT_ABSENT);
    let bad = NoConfig::Unusable("why".to_string()).load_config();
    assert_eq!((bad.text.as_str(), bad.exit), ("rig config unusable: why", EXIT_FAILURE));
    let lost = NoConfig::Unlocatable("cwd".to_string()).load_config();
    assert_eq!((lost.text.as_str(), lost.exit), ("locating rig config: cwd", EXIT_FAILURE));
    assert!(none.is_error && bad.is_error && lost.is_error);
}

fn lease(holder: Option<&str>) -> StatusFound {
    StatusFound::Lease {
        addr: "rig:9".to_string(),
        lease: Ok(LeaseStatus { holder: holder.map(|h| h.to_string()), expires_in_s: 12 }),
    }
}

fn lock(lock: Result<FlockStatus, String>) -> StatusFound {
    StatusFound::Lock { path: "l".to_string(), lock }
}

#[test]
fn status_says_who_holds_the_rig() {
    let held = lease(Some("ci")).rig_status();
    assert_eq!(held.text, "held by 'ci' (lease at rig:9, expires in 12s unless renewed)");
    assert_eq!(held.exit, EXIT_OK);
    assert_eq!(lease(None).rig_status().text, "free (lease at rig:9)");
    assert_eq!(lock(Ok(FlockStatus::Free)).rig_status().text, "free (flock at l)");
    assert_eq!(
        lock(Ok(FlockStatus::Held(Some(holder())))).rig_status().text,
        "held by 'ci' (pid 3, since unix 99, flock at l)"
    );
    assert_eq!(
        lock(Ok(FlockStatus::Held(None))).rig_status().text,
        "held by an unidentified process (flock at l)"
    );
}

#[test]
fn status_that_cannot_be_had_is_an_error() {
    let down = StatusFound::Lease { addr: "rig:9".to_string(), lease: Err("eof".to_string()) };
    let down = down.rig_status();
    assert_eq!(
        down.text,
        "lease server rig:9 did not answer a status query: eof\n\
         (an older rig daemon predates status; the rig may still be usable)"
    );
    assert!(down.is_error);
    assert_eq!(down.exit, EXIT_FAILURE);
    let token = StatusFound::BadToken("gone".to_string()).rig_status();
    assert_eq!(token.text, "lease token: gone");
    let bad = lock(Err("denied".to_string())).rig_status();
    assert_eq!((bad.text.as_str(), bad.exit), ("probing rig lock: denied", EXIT_FAILURE));
}

#[test]
fn probe_commands_get_the_target() {
    let none = Vec::new();
    let local = target(None);
    assert_eq!(
        probe(&local, "reset", None, &none),
        vec!["reset", "--chip", "nRF52840", "--probe", "1366:1051"]
    );
    assert_eq!(probe(&local, "list", None, &none), vec!["list"]);
    assert!(probe_token_file(&local).is_none());
    let remote = target(Some("ws://h"));
    assert_eq!(probe_token_file(&remote).map(|p| p.as_str()), Some("tok"));
    assert_eq!(
        probe(&remote, "info", Some("s3"), &words("-v")),
        vec![
            "info", "--chip", "nRF52840", "--probe", "1366:1051", "--host", "ws://h", "--token",
            "s3", "-v"
        ]
    );
    assert_eq!(probe(&remote, "list", None, &none), vec!["list", "--host", "ws://h"]);
}

#[test]
fn probe_exits_as_the_binary_did() {
    let exit = |code: i32| ProbeRun::Exited(code).report().exit;
    assert_eq!((exit(0), exit(7), exit(255), exit(256), exit(-1)), (0, 7, 255, 255, 0));
    assert_eq!(ProbeRun::Exited(7).report().text, "");
    let text = |run: ProbeRun| {
        let report = run.report();
        assert_eq!(report.exit, EXIT_FAILURE);
        report.text
    };
    assert_eq!(text(ProbeRun::NoTarget), "rig config has no [target]; nothing to probe");
    assert_eq!(text(ProbeRun::BadToken("e".to_string())), "probe token: e");
    assert_eq!(text(ProbeRun::Signalled), "probe-rs terminated by signal");
    assert_eq!(
        text(ProbeRun::NotRun("gone".to_string())),
        "running probe-rs: gone (is it installed and on PATH?)"
    );
}

#[test]
fn addresses_lose_scheme_and_slashes() {
    assert_eq!(host_port("ws://rig:3000/"), "rig:3000");
    assert_eq!(host_port("rig:3000"), "rig:3000");
    assert_eq!(host_port("a://b://c//"), "b://c");
    assert_eq!(host_port("://"), "");
    assert_eq!(host_port(""), "");
}

#[test]
fn reaching_a_host_names_what_failed() {
    let refused = || Err("refused".to_string());
    let reach = Reach::untried();
    assert!(reach.open());
    let reach = reach.tried(Err("timed out".to_string())).tried(refused());
    assert!(matches!(&reach, Reach::Unanswered(Some(e)) if e == "refused"));
    let reach = reach.tried(Ok(()));
    assert!(matches!(reach, Reach::Connected));
    assert!(!reach.open());
    assert!(matches!(reach.tried(refused()), Reach::Connected));
    let lost = Reach::Unresolved("dns".to_string());
    assert!(!lost.open());
    assert!(matches!(lost.tried(Ok(())), Reach::Unresolved(_)));
    assert!(tcp_reach("h:1", Reach::Connected).is_ok());
    assert_eq!(
        tcp_reach("h:1", Reach::Unresolved("dns".to_string())).unwrap_err(),
        "resolving h:1: dns"
    );
    assert_eq!(
        tcp_reach("h:1", Reach::Unanswered(Some("refused".to_string()))).unwrap_err(),
        "connecting to h:1: refused"
    );
    assert_eq!(
        tcp_reach("h:1", Reach::Unanswered(None)).unwrap_err(),
        "h:1 resolved to no addresses"
    );
}

fn full_config() -> RigConfig {
    let mut config = RigConfig::default();
    config.rig.name = Some("bench".to_string());
    config.target = Some(target(Some("ws://h")));
    let assistant = |name: &str, addr: Option<&str>| AssistantConfig {
        name: name.to_string(),
        serial: None,
        product: Some("p".to_string()),
        addr: addr.map(|a| a.to_string()),
        token_file: addr.map(|_| "t".to_string()),
        unique_id: None,
    };
    config.assistants.push(assistant("net", Some("h:9")));
    config.assistants.push(assistant("usb", None));
    let instrument = |name: &str, address: Option<&str>| InstrumentConfig {
        name: name.to_string(),
        kind: "att".to_string(),
        address: address.map(|a| a.to_string()),
        params: toml::Table::new(),
    };
    config.instruments.push(instrument("lan", Some("10.0.0.1:23")));
    config.instruments.push(instrument("tty", Some("/dev/tty:0")));
    config.instruments.push(instrument("none", None));
    config
}

#[test]
fn the_doctor_visits_every_element() {
    let checks = doctor(&full_config());
    let mut tally = Doctor::new();
    let lines: Vec<String> =
        checks.iter().map(|c| tally.report(c, "/p", Ok(String::new()))).collect();
    assert_eq!(
        lines,
        vec![
            "  ok    rig lock /p",
            "  ok    probe-rs at /p",
            "  ok    target 'nRF52840' probe server ws://h",
            "  ok    target probe token",
            "  ok    assistant 'net' at h:9",
            "  --    assistant 'usb': USB (checked at suite runtime, not here)",
            "  ok    instrument 'lan' at 10.0.0.1:23",
            "  --    instrument 'tty' (att): no network address to probe",
            "  --    instrument 'none' (att): no network address to probe",
            "  ok    artifacts dir /p",
        ]
    );
    assert_eq!(tally.summary(), "7 ok, 0 failed");
    assert_eq!(tally.exit(), EXIT_OK);
}

#[test]
fn the_doctor_visits_the_lease_in_place_of_the_lock() {
    let mut config = RigConfig::default();
    config.rig.lease = Some(LeaseConfig { addr: "h:1".to_string(), token_file: "t".to_string() });
    let mut local = target(None);
    local.token_file = None;
    config.target = Some(local);
    let checks = doctor(&config);
    assert_eq!(checks.len(), 4);
    assert!(matches!(&checks[0], Check::Lease { addr, token_file } if addr == "h:1" && token_file == "t"));
    assert!(matches!(&checks[1], Check::ProbeBinary));
    assert_eq!(
        checks[2].what(""),
        "target 'nRF52840': local USB probe (not probed; use `banc probe info`)"
    );
    assert!(matches!(&checks[3], Check::Artifacts));
}

#[test]
fn one_failure_fails_the_visit() {
    let mut tally = Doctor::new();
    let lease = Check::Lease { addr: "h:1".to_string(), token_file: "t".to_string() };
    assert_eq!(
        tally.report(&lease, "", Ok("free".to_string())),
        "  ok    lease server h:1: free"
    );
    assert_eq!(
        tally.report(&lease, "", Err("refused".to_string())),
        "  FAIL  lease server h:1: refused"
    );
    assert_eq!(
        tally.report(&Check::ProbeBinary, "", Err("irrelevant".to_string())),
        "  FAIL  probe-rs not on PATH"
    );
    assert_eq!(tally.check("config", Err(String::new())), "  FAIL  config: ");
    assert_eq!(tally.ok("config"), "  ok    config");
    assert_eq!(tally.fail("x"), "  FAIL  x");
    assert_eq!(tally.note("x"), "  --    x");
    assert_eq!(tally.summary(), "2 ok, 4 failed");
    assert_eq!(tally.exit(), EXIT_FAILURE);
}

#[test]
fn the_doctor_introduces_the_rig() {
    let config = full_config();
    assert_eq!(heading(&config, "/etc"), "banc doctor \u{2014} rig 'bench' (/etc)");
    assert_eq!(
        heading(&RigConfig::default(), "."),
        "banc doctor \u{2014} rig 'unnamed' (.)"
    );
    assert_eq!(inventory(&config), "config: 1 target, 2 assistant(s), 3 instrument(s)");
    assert_eq!(
        inventory(&RigConfig::default()),
        "config: 0 target, 0 assistant(s), 0 instrument(s)"
    );
}

#[test]
fn holders_are_shown_in_a_word() {
    let status = |holder: Option<&str>| LeaseStatus {
        holder: holder.map(|h| h.to_string()),
        expires_in_s: 0,
    };
    assert_eq!(lease_detail(&status(None)), "free");
    assert_eq!(lease_detail(&status(Some("ci"))), "held by 'ci'");
    assert_eq!(lock_detail(&FlockStatus::Free), "free");
    assert_eq!(lock_detail(&FlockStatus::Held(Some(holder()))), "held by 'ci' (pid 3)");
    assert_eq!(lock_detail(&FlockStatus::Held(None)), "held by an unidentified process");
}

#[test]
fn a_node_is_tried_once_its_token_was_read() {
    assert!(after_token(None).is_ok());
    assert!(after_token(Some(Ok("s3".to_string()))).is_ok());
    assert_eq!(after_token(Some(Err("gone".to_string()))).unwrap_err(), "gone");
}
