//! The device under test: which probe to use, and how to drive a remote one.

use crate::text::{dec, decode, lossy, mentions, push_dec, texts, wrap};
use vstd::prelude::*;
use vstd::string::*;

verus! {

/// Which probe and chip to use.
#[derive(Debug, Clone)]
pub struct TargetSpec {
    /// Target-database name, e.g. "STM32WL55JCIx", "RP2350".
    pub chip: String,
    /// "VID:PID[:SERIAL]"; None = the only probe attached.
    pub probe: Option<String>,
    /// Remote probe server; None = local USB probe.
    pub probe_host: Option<String>,
    /// Path to the probe-rs binary for the remote path. Default: "probe-rs"
    /// from PATH.
    pub probe_rs_bin: Option<String>,
}

/// How the device under test is driven.
#[derive(Debug)]
pub enum Target {
    /// A locally attached USB probe.
    Local,
    Remote(RemoteCliTarget),
}

/// A target driven by a `probe-rs` binary against a remote probe server.
#[derive(Debug, Clone)]
pub struct RemoteCliTarget {
    pub bin: String,
    pub host: String,
    pub chip: String,
    pub probe: Option<String>,
}

/// A debug probe, as a selector describes it.
#[derive(Debug)]
pub struct ProbeSelector {
    pub vendor_id: u16,
    pub product_id: u16,
    pub interface: Option<u8>,
    pub serial_number: Option<String>,
}

/// Which debug probe to open.
#[derive(Debug)]
pub enum ProbeChoice {
    Selected(ProbeSelector),
    /// The only one attached.
    Only,
}

/// What a run of the probe-rs binary came to.
#[derive(Debug)]
pub enum CliOutcome {
    Succeeded,
    /// It exited with this status, having printed these bytes.
    Failed { status: String, stdout: Vec<u8>, stderr: Vec<u8> },
    /// It could not be started.
    NotSpawned(String),
}

/// One run of the probe-rs binary.
#[derive(Debug)]
pub struct CliRun {
    /// What it is for.
    pub what: &'static str,
    pub args: Vec<String>,
    /// Whether the path of the image to flash follows the arguments.
    pub image: bool,
}

/// What a probe selector stands for, or why it stands for nothing: vendor,
/// product, interface and serial number.
pub uninterp spec fn selector_of(s: Seq<char>) -> Result<
    (u16, u16, Option<u8>, Option<Seq<char>>),
    Seq<char>,
>;

/// The contents of a [`ProbeSelector`].
pub open spec fn selector_fields(p: ProbeSelector) -> (u16, u16, Option<u8>, Option<Seq<char>>) {
    (
        p.vendor_id,
        p.product_id,
        p.interface,
        match p.serial_number {
            Some(s) => Some(s@),
            None => None,
        },
    )
}

/// `probe_rs`'s `DebugProbeSelector::from_str`: what it makes of a text, which
/// depends on the text alone.
#[verifier::external_body]
fn parse_selector(s: &str) -> (r: Result<ProbeSelector, String>)
    ensures
        match r {
            Ok(p) => selector_of(s@) == Ok::<_, Seq<char>>(selector_fields(p)),
            Err(e) => selector_of(s@) == Err::<(u16, u16, Option<u8>, Option<Seq<char>>), _>(e@),
        },
{
    match <probe_rs::probe::DebugProbeSelector as std::str::FromStr>::from_str(s) {
        Ok(p) => Ok(
            ProbeSelector {
                vendor_id: p.vendor_id,
                product_id: p.product_id,
                interface: p.interface,
                serial_number: p.serial_number,
            },
        ),
        Err(e) => Err(e.to_string()),
    }
}

impl TargetSpec {
    /// Which debug probe to open: the one selected, or else the only one.
    pub fn choose_probe(&self) -> (r: Result<ProbeChoice, String>)
        ensures
            match self.probe {
                None => r == Ok::<ProbeChoice, String>(ProbeChoice::Only),
                Some(sel) => match selector_of(sel@) {
                    Ok(fields) => r matches Ok(ProbeChoice::Selected(p)) && selector_fields(p)
                        == fields,
                    Err(e) => r matches Err(text) && text@ == "bad probe selector '"@ + sel@
                        + "': "@ + e,
                },
            },
    {
        match &self.probe {
            None => Ok(ProbeChoice::Only),
            Some(sel) => chosen(sel.as_str(), parse_selector(sel.as_str())),
        }
    }
}

/// The choice of a probe by the selector `sel`, given what it stands for.
pub fn chosen(sel: &str, parsed: Result<ProbeSelector, String>) -> (r: Result<
    ProbeChoice,
    String,
>)
    ensures
        match parsed {
            Ok(p) => r == Ok::<ProbeChoice, String>(ProbeChoice::Selected(p)),
            Err(e) => r matches Err(text) && text@ == "bad probe selector '"@ + sel@ + "': "@ + e@,
        },
{
    match parsed {
        Ok(p) => Ok(ProbeChoice::Selected(p)),
        Err(e) => {
            let mut out = wrap("bad probe selector '", sel, "': ");
            out.append(e.as_str());
            Err(out)
        },
    }
}

/// Whether "the only probe" names one: exactly one is attached.
pub fn only_probe(found: usize) -> (r: Result<(), String>)
    ensures
        r is Ok == (found == 1),
        r matches Err(text) ==> text@ == "expected exactly one debug probe, found "@ + dec(
            found as nat,
        ) + " (set target.probe in banc-rig.toml)"@,
{
    if found == 1 {
        return Ok(());
    }
    let mut out = "expected exactly one debug probe, found ".to_owned();
    push_dec(&mut out, found as u128);
    out.append(" (set target.probe in banc-rig.toml)");
    Err(out)
}

impl Target {
    /// How to drive the target: remotely exactly when a probe server is
    /// named.
    pub fn open(spec: &TargetSpec) -> (r: Target)
        ensures
            match spec.probe_host {
                None => r is Local,
                Some(host) => r matches Target::Remote(t) && t.follows(*spec, host@),
            },
    {
        match &spec.probe_host {
            None => Target::Local,
            Some(host) => Target::Remote(RemoteCliTarget::new(spec, host.as_str())),
        }
    }

    /// Whether the target's log can be captured: not over the remote CLI.
    pub fn start_rtt(&self) -> (r: Result<(), String>)
        ensures
            r is Ok == (self is Local),
            r matches Err(text) ==> text@
                == "RTT capture over the remote probe-rs CLI is not wired yet (Phase 2)"@,
    {
        match self {
            Target::Local => Ok(()),
            Target::Remote(_) => Err(
                "RTT capture over the remote probe-rs CLI is not wired yet (Phase 2)".to_owned(),
            ),
        }
    }
}

impl RemoteCliTarget {
    /// This target is the one that `spec` and `host` describe.
    pub open spec fn follows(self, spec: TargetSpec, host: Seq<char>) -> bool {
        &&& self.bin@ == match spec.probe_rs_bin {
            Some(bin) => bin@,
            None => "probe-rs"@,
        }
        &&& self.host@ == host
        &&& self.chip == spec.chip
        &&& self.probe == spec.probe
    }

    /// The arguments of one run of the binary.
    pub open spec fn args(self, subcommand: Seq<char>) -> Seq<Seq<char>> {
        let common = seq![subcommand, "--host"@, self.host@, "--chip"@, self.chip@];
        match self.probe {
            Some(probe) => common + seq!["--probe"@, probe@],
            None => common,
        }
    }

    /// A target driven through the probe server at `host`.
    pub fn new(spec: &TargetSpec, host: &str) -> (r: Self)
        ensures
            r.follows(*spec, host@),
    {
        let bin = match &spec.probe_rs_bin {
            Some(bin) => bin.clone(),
            None => "probe-rs".to_owned(),
        };
        let probe = match &spec.probe {
            Some(p) => Some(p.clone()),
            None => None,
        };
        RemoteCliTarget { bin, host: host.to_owned(), chip: spec.chip.clone(), probe }
    }

    /// The arguments of one run of the binary.
    pub fn command(&self, subcommand: &str) -> (r: Vec<String>)
        ensures
            texts(r@) == self.args(subcommand@),
    {
        let mut v: Vec<String> = Vec::new();
        v.push(subcommand.to_owned());
        v.push("--host".to_owned());
        v.push(self.host.clone());
        v.push("--chip".to_owned());
        v.push(self.chip.clone());
        if let Some(probe) = &self.probe {
            v.push("--probe".to_owned());
            v.push(probe.clone());
        }
        assert(texts(v@) =~= self.args(subcommand@));
        v
    }

    /// What one run of the binary for the purpose `what` came to.
    pub fn run(&self, outcome: CliOutcome, what: &str) -> (r: Result<(), String>)
        ensures
            match outcome {
                CliOutcome::Succeeded => r is Ok,
                CliOutcome::Failed { status, stdout, stderr } => r matches Err(text) && text@
                    == failed_text(what@, status@, lossy(stdout@), lossy(stderr@)),
                CliOutcome::NotSpawned(e) => r matches Err(text) && text@ == "spawning "@
                    + self.bin@ + " for "@ + what@ + ": "@ + e@,
            },
    {
        match outcome {
            CliOutcome::Succeeded => Ok(()),
            CliOutcome::Failed { status, stdout, stderr } => {
                let out = decode(stdout.as_slice());
                let err = decode(stderr.as_slice());
                Err(failed_message(what, status.as_str(), out.as_str(), err.as_str()))
            },
            CliOutcome::NotSpawned(e) => {
                let mut out = wrap("spawning ", self.bin.as_str(), " for ");
                out.append(what);
                out.append(": ");
                out.append(e.as_str());
                Err(out)
            },
        }
    }

    /// The runs that flash an image, in order; the first that fails ends it.
    /// Flashing alone leaves the core halted, so a reset follows and the core
    /// runs the new image.
    pub fn flash(&self) -> (r: Vec<CliRun>)
        ensures
            r@.len() == 2,
            r@[0].what@ == "remote flash"@,
            texts(r@[0].args@) == self.args("download"@),
            r@[0].image,
            r@[1].what@ == "remote reset"@,
            texts(r@[1].args@) == self.args("reset"@),
            !r@[1].image,
    {
        let mut v: Vec<CliRun> = Vec::new();
        v.push(CliRun { what: "remote flash", args: self.command("download"), image: true });
        v.push(self.reset());
        v
    }

    /// The run that resets the core.
    pub fn reset(&self) -> (r: CliRun)
        ensures
            r.what@ == "remote reset"@,
            texts(r.args@) == self.args("reset"@),
            !r.image,
    {
        CliRun { what: "remote reset", args: self.command("reset"), image: false }
    }
}

/// The text that reports a run of the binary that failed.
pub open spec fn failed_text(
    what: Seq<char>,
    status: Seq<char>,
    stdout: Seq<char>,
    stderr: Seq<char>,
) -> Seq<char> {
    what + " failed ("@ + status + "):\n"@ + stdout + "\n"@ + stderr
}

/// Reports a run of the binary that failed, given the text that it printed.
pub fn failed_message(what: &str, status: &str, stdout: &str, stderr: &str) -> (r: String)
    ensures
        r@ == failed_text(what@, status@, stdout@, stderr@),
{
    let mut out = wrap(what, " failed (", status);
    out.append("):\n");
    out.append(stdout);
    out.append("\n");
    out.append(stderr);
    out
}

/// A target is driven remotely exactly when a probe server is named, and then
/// through that server, for its own chip and probe, by the binary that it
/// names, or else `probe-rs`. Its log can be captured exactly when it is not.
pub proof fn a_named_server_drives_the_target(
    spec_of: TargetSpec,
    r: Target,
    rtt: Result<(), String>,
)
    requires
        call_ensures(Target::open, (&spec_of,), r),
        call_ensures(Target::start_rtt, (&r,), rtt),
    ensures
        r is Local == spec_of.probe_host is None,
        r matches Target::Remote(t) ==> {
            &&& t.host@ == spec_of.probe_host->0@
            &&& t.chip@ == spec_of.chip@
            &&& t.probe is Some == spec_of.probe is Some
            &&& t.probe is Some ==> t.probe->0@ == spec_of.probe->0@
            &&& spec_of.probe_rs_bin is Some ==> t.bin@ == spec_of.probe_rs_bin->0@
            &&& spec_of.probe_rs_bin is None ==> t.bin@ == "probe-rs"@
        },
        rtt is Ok == spec_of.probe_host is None,
{
}

/// Every run of the binary is for the command asked for, against the target's
/// server and chip, and its probe if one is named, and for nothing else.
pub proof fn a_run_names_the_target(
    target: RemoteCliTarget,
    subcommand: &str,
    r: Vec<String>,
)
    requires
        call_ensures(RemoteCliTarget::command, (&target, subcommand), r),
    ensures
        r@.len() == if target.probe is Some {
            7int
        } else {
            5
        },
        r@[0]@ == subcommand@,
        r@[1]@ == "--host"@,
        r@[2]@ == target.host@,
        r@[3]@ == "--chip"@,
        r@[4]@ == target.chip@,
        target.probe is Some ==> r@[5]@ == "--probe"@ && r@[6]@ == target.probe->0@,
{
    let t = texts(r@);
    assert(t == target.args(subcommand@));
    assert(t.len() == r@.len());
    assert(t[0] == r@[0]@);
    assert(t[1] == r@[1]@);
    assert(t[2] == r@[2]@);
    assert(t[3] == r@[3]@);
    assert(t[4] == r@[4]@);
    if target.probe is Some {
        assert(t[5] == r@[5]@);
        assert(t[6] == r@[6]@);
    }
}

/// Flashing is a download of the image and then a reset, which are run with
/// the same arguments as any other command.
pub proof fn flashing_ends_with_a_reset(
    target: RemoteCliTarget,
    r: Vec<CliRun>,
    reset: CliRun,
    download: &str,
    restart: &str,
    download_args: Vec<String>,
    reset_args: Vec<String>,
)
    requires
        call_ensures(RemoteCliTarget::flash, (&target,), r),
        call_ensures(RemoteCliTarget::reset, (&target,), reset),
        download@ == "download"@,
        restart@ == "reset"@,
        call_ensures(RemoteCliTarget::command, (&target, download), download_args),
        call_ensures(RemoteCliTarget::command, (&target, restart), reset_args),
    ensures
        r@.len() == 2,
        texts(r@[0].args@) == texts(download_args@),
        r@[0].image,
        r@[0].what@ == "remote flash"@,
        r@[1].what@ == "remote reset"@,
        texts(r@[1].args@) == texts(reset_args@),
        !r@[1].image,
        texts(reset.args@) == texts(reset_args@),
        !reset.image,
{
}

/// A run comes to success exactly when the binary succeeded; a failure says
/// what it was for, how it ended, and all that was printed, and one that
/// never started names the binary.
pub proof fn a_failed_run_says_what_it_printed(
    target: RemoteCliTarget,
    outcome: CliOutcome,
    what: &str,
    r: Result<(), String>,
)
    requires
        call_ensures(RemoteCliTarget::run, (&target, outcome, what), r),
    ensures
        r is Ok == outcome is Succeeded,
        outcome matches CliOutcome::Failed { status, stdout, stderr } ==> r->Err_0@ == what@
            + " failed ("@ + status@ + "):\n"@ + lossy(stdout@) + "\n"@ + lossy(stderr@),
        outcome matches CliOutcome::NotSpawned(e) ==> r->Err_0@ == "spawning "@ + target.bin@
            + " for "@ + what@ + ": "@ + e@,
{
}

/// Without a selector the only probe is chosen, which is one exactly when one
/// is attached; with one, what it stands for is, or what is wrong with it is
/// reported along with it.
pub proof fn a_selector_chooses_the_probe(
    sel: &str,
    parsed: Result<ProbeSelector, String>,
    r: Result<ProbeChoice, String>,
    found: usize,
    only: Result<(), String>,
)
    requires
        call_ensures(chosen, (sel, parsed), r),
        call_ensures(only_probe, (found,), only),
    ensures
        r is Ok == parsed is Ok,
        r matches Ok(choice) ==> choice == ProbeChoice::Selected(parsed->Ok_0),
        r matches Err(text) ==> text@ == "bad probe selector '"@ + sel@ + "': "@
            + parsed->Err_0@,
        only is Ok == (found == 1),
        only matches Err(text) ==> mentions(text@, dec(found as nat)),
{
    broadcast use crate::text::group_mentions;

}

/// A target that names no probe has the only one; one that does has that and
/// no other, or none.
pub proof fn a_named_probe_is_never_replaced(
    spec_of: TargetSpec,
    r: Result<ProbeChoice, String>,
)
    requires
        call_ensures(TargetSpec::choose_probe, (&spec_of,), r),
    ensures
        (r matches Ok(ProbeChoice::Only)) == spec_of.probe is None,
        spec_of.probe is Some ==> {
            &&& r is Ok == selector_of(spec_of.probe->0@) is Ok
            &&& r matches Ok(ProbeChoice::Selected(p)) ==> {
                let (vendor, product, interface, serial) = selector_of(spec_of.probe->0@)->Ok_0;
                &&& p.vendor_id == vendor
                &&& p.product_id == product
                &&& p.interface == interface
                &&& p.serial_number is Some == serial is Some
                &&& p.serial_number is Some ==> p.serial_number->0@ == serial->0
            }
            &&& r matches Err(text) ==> mentions(text@, spec_of.probe->0@)
        },
{
    broadcast use crate::text::group_mentions;

}

/// A failed run is reported with what it was for, how it ended, and what it
/// printed, standard output first.
pub proof fn a_failed_run_is_reported(
    what: &str,
    status: &str,
    stdout: &str,
    stderr: &str,
    r: String,
)
    requires
        call_ensures(failed_message, (what, status, stdout, stderr), r),
    ensures
        r@ == what@ + " failed ("@ + status@ + "):\n"@ + stdout@ + "\n"@ + stderr@,
{
}

} // verus!
