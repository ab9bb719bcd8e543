//! Driving the target: probe selection, the remote CLI, and log capture.

use banc::rtt::{
    CaptureHealth, LineBuffer, ProbeStep, Wait, Worker, WorkerAction, WorkerEvent, MAX_LINE,
};
use banc::target::{
    chosen, failed_message, only_probe, CliOutcome, ProbeChoice, RemoteCliTarget, Target, TargetSpec,
};

fn spec(probe: Option<&str>, probe_host: Option<&str>) -> TargetSpec {
    TargetSpec {
        chip: "RP2350".to_string(),
        probe: probe.map(|p| p.to_string()),
        probe_host: probe_host.map(|h| h.to_string()),
        probe_rs_bin: None,
    }
}

fn remote() -> RemoteCliTarget {
    match Target::open(&spec(Some("2e8a:000c"), Some("ws://rig:3000"))) {
        Target::Remote(t) => t,
        other => panic!("unexpected: {other:?}"),
    }
}

#[test]
fn selectors_name_a_probe() {
    match spec(Some("2e8a:000c:E661"), None).choose_probe() {
        Ok(ProbeChoice::Selected(p)) => {
            assert_eq!((p.vendor_id, p.product_id), (0x2e8a, 0x000c));
            assert_eq!(p.interface, None);
            assert_eq!(p.serial_number.as_deref(), Some("E661"));
        }
        other => panic!("unexpected: {other:?}"),
    }
    match spec(Some("2e8a:000c"), None).choose_probe() {
        Ok(ProbeChoice::Selected(p)) => assert_eq!(p.serial_number, None),
        other => panic!("unexpected: {other:?}"),
    }
    assert!(matches!(spec(None, None).choose_probe(), Ok(ProbeChoice::Only)));
    let err = spec(Some("nonsense"), None).choose_probe().unwrap_err();
    assert!(err.starts_with("bad probe selector 'nonsense': "), "{err}");
    assert_eq!(
        chosen("x", Err("why".to_string())).unwrap_err(),
        "bad probe selector 'x': why"
    );
}

#[test]
fn the_only_probe_has_to_be_the_only_one() {
    assert!(only_probe(1).is_ok());
    assert_eq!(
        only_probe(0).unwrap_err(),
        "expected exactly one debug probe, found 0 (set target.probe in banc-rig.toml)"
    );
    assert!(only_probe(2).unwrap_err().contains("found 2 "));
}

#[test]
fn a_probe_server_makes_a_target_remote() {
    let local = Target::open(&spec(None, None));
    assert!(matches!(local, Target::Local));
    assert!(local.start_rtt().is_ok());
    let target = remote();
    assert_eq!(target.bin, "probe-rs");
    assert_eq!(
        Target::Remote(target).start_rtt().unwrap_err(),
        "RTT capture over the remote probe-rs CLI is not wired yet (Phase 2)"
    );
    let mut own = spec(None, Some("h"));
    own.probe_rs_bin = Some("/opt/probe-rs".to_string());
    assert_eq!(RemoteCliTarget::new(&own, "h").bin, "/opt/probe-rs");
}

#[test]
fn the_remote_cli_gets_its_arguments() {
    // Flashing leaves the core halted, so a reset follows.
    let runs = remote().flash();
    assert_eq!(runs.len(), 2);
    assert_eq!((runs[0].what, runs[0].image), ("remote flash", true));
    assert_eq!(
        runs[0].args,
        vec!["download", "--host", "ws://rig:3000", "--chip", "RP2350", "--probe", "2e8a:000c"]
    );
    assert_eq!((runs[1].what, runs[1].image), ("remote reset", false));
    assert_eq!(
        runs[1].args,
        vec!["reset", "--host", "ws://rig:3000", "--chip", "RP2350", "--probe", "2e8a:000c"]
    );
    let bare = RemoteCliTarget::new(&spec(None, None), "ws://h");
    assert_eq!(bare.reset().args, vec!["reset", "--host", "ws://h", "--chip", "RP2350"]);
    assert_eq!(bare.command("info"), vec!["info", "--host", "ws://h", "--chip", "RP2350"]);
}

#[test]
fn failures_of_the_remote_cli_are_reported() {
    let target = remote();
    assert!(target.run(CliOutcome::Succeeded, "flash").is_ok());
    let failed = CliOutcome::Failed {
        status: "exit status: 1".to_string(),
        stdout: b"out".to_vec(),
        stderr: vec![b'e', 0xff],
    };
    assert_eq!(
        target.run(failed, "flash").unwrap_err(),
        "flash failed (exit status: 1):\nout\ne\u{fffd}"
    );
    assert_eq!(failed_message("flash", "1", "o", "e"), "flash failed (1):\no\ne");
    assert_eq!(
        target.run(CliOutcome::NotSpawned("gone".to_string()), "reset").unwrap_err(),
        "spawning probe-rs for reset: gone"
    );
}

#[test]
fn lines_end_at_newlines_however_reads_are_cut() {
    let mut one = LineBuffer::new();
    assert_eq!(one.poll_rtt(b"boot\r\nready\npart"), vec!["boot", "ready"]);
    assert_eq!(one.pending, b"part");
    assert_eq!(one.poll_rtt(b"ial\n\n"), vec!["partial", ""]);
    let mut many = LineBuffer::new();
    let mut lines = Vec::new();
    for byte in b"boot\r\nready\npartial\n\n" {
        lines.extend(many.poll_rtt(&[*byte]));
    }
    assert_eq!(lines, vec!["boot", "ready", "partial", ""]);
    assert!(many.pending.is_empty());
}

#[test]
fn text_is_decoded_as_far_as_it_goes() {
    let mut lines = LineBuffer::new();
    assert_eq!(lines.poll_rtt("t\u{e9}l\u{e9}\n".as_bytes()), vec!["t\u{e9}l\u{e9}"]);
    assert_eq!(lines.poll_rtt(&[b'a', 0xff, b'b', 10]), vec!["a\u{fffd}b"]);
}

#[test]
fn an_endless_line_is_flushed() {
    let mut lines = LineBuffer::new();
    assert!(lines.poll_rtt(&vec![b'x'; MAX_LINE]).is_empty());
    assert_eq!(lines.pending.len(), MAX_LINE);
    let flushed = lines.poll_rtt(b"y");
    assert_eq!(flushed.len(), 1);
    assert_eq!(flushed[0].len(), MAX_LINE + 1);
    assert!(lines.pending.is_empty());
}

#[test]
fn the_worker_polls_only_while_capturing() {
    let mut worker = Worker::new();
    assert_eq!(worker.wait(), Wait::Block);
    assert_eq!(worker.woken(WorkerEvent::StartRtt), WorkerAction::AttachRtt);
    worker.attached(false);
    assert_eq!(worker.wait(), Wait::Block);
    worker.attached(true);
    assert_eq!(worker.wait(), Wait::Poll);
    assert_eq!(worker.woken(WorkerEvent::Timeout), WorkerAction::Nothing);
    assert!(worker.should_read(false));
    assert_eq!(worker.woken(WorkerEvent::Reset), WorkerAction::Reset);
    assert!(worker.capturing);
    assert_eq!(worker.woken(WorkerEvent::Flash), WorkerAction::Flash);
    assert!(!worker.capturing);
    assert!(!worker.should_read(false));
    worker.attached(true);
    assert!(!worker.should_read(true));
    assert!(!worker.capturing);
    assert_eq!(worker.woken(WorkerEvent::Disconnected), WorkerAction::End);
}

#[test]
fn flashing_leaves_the_core_running() {
    assert_eq!(WorkerAction::Flash.steps(), vec![ProbeStep::Download, ProbeStep::Reset]);
    assert_eq!(WorkerAction::Reset.steps(), vec![ProbeStep::Reset]);
    assert_eq!(WorkerAction::AttachRtt.steps(), vec![ProbeStep::Attach]);
    assert!(WorkerAction::Nothing.steps().is_empty());
    assert!(WorkerAction::End.steps().is_empty());
}

#[test]
fn lost_observation_is_no_silence() {
    let mut worker = Worker { capturing: true };
    let mut health = CaptureHealth::new();
    worker.read_done(Ok(()), &mut health);
    assert!(worker.capturing && health.fault.is_none());
    worker.read_done(Err("usb gone".to_string()), &mut health);
    assert!(!worker.capturing);
    assert_eq!(health.fault.as_deref(), Some("rtt read error: usb gone"));
}
