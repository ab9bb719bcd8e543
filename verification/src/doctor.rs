//! `banc doctor`: which elements of the rig config to check, and what to say
//! about each.

use crate::cli::{EXIT_FAILURE, EXIT_OK};
use crate::config::{AssistantConfig, InstrumentConfig, RigConfig, TargetConfig};
use crate::lease_client::LeaseStatus;
use crate::rig::FlockStatus;
use crate::text::{chars_of, dec, join, mentions, push_dec, wrap};
use vstd::prelude::*;
use vstd::string::*;

verus! {

/// One element of the rig to look at.
#[derive(Debug)]
pub enum Check {
    /// The lease server answers, with the token in this file.
    Lease { addr: String, token_file: String },
    /// The rig lock can be tried.
    Lock,
    /// The probe-rs binary is there.
    ProbeBinary,
    /// The target's probe server is up.
    ProbeServer { chip: String, host: String },
    /// A local probe, which is not looked at.
    LocalProbe { chip: String },
    /// The target's token can be read.
    ProbeToken { token_file: String },
    /// The token in this file, if there is one, can be read, and the
    /// assistant's node is up.
    NetAssistant { name: String, addr: String, token: Option<String> },
    /// A USB assistant, which is not looked at.
    UsbAssistant { name: String },
    /// The instrument is up.
    NetInstrument { name: String, addr: String },
    /// An instrument without a network address, which is not looked at.
    OtherInstrument { name: String, kind: String },
    /// Artifacts can be written.
    Artifacts,
}

/// How an element is marked.
#[derive(Debug, Clone, Copy, PartialEq, Eq, Structural)]
pub enum Mark {
    Good,
    Bad,
    /// Not looked at.
    Note,
}

/// `s` holds the character `c`.
pub open spec fn holds(s: Seq<char>, c: char) -> bool {
    exists|i: int| 0 <= i < s.len() && #[trigger] s[i] == c
}

/// `addr` is a network address: it has a colon and no slash.
pub open spec fn is_network_addr(addr: Seq<char>) -> bool {
    holds(addr, ':') && !holds(addr, '/')
}

fn has_char(s: &str, c: char) -> (r: bool)
    ensures
        r == holds(s@, c),
{
    let chars = chars_of(s);
    let mut i: usize = 0;
    while i < chars.len()
        invariant
            chars@ == s@,
            i <= chars@.len(),
            forall|k: int| 0 <= k < i ==> #[trigger] s@[k] != c,
        decreases chars.len() - i,
    {
        if chars[i] == c {
            assert(s@[i as int] == c);
            return true;
        }
        i += 1;
    }
    false
}

/// How the rig's exclusivity is checked.
pub open spec fn arbiter_check(config: RigConfig) -> Check {
    match config.rig.lease {
        Some(lease) => Check::Lease { addr: lease.addr, token_file: lease.token_file },
        None => Check::Lock,
    }
}

/// How the target is checked, if there is one.
pub open spec fn target_checks(target: Option<TargetConfig>) -> Seq<Check> {
    match target {
        None => seq![],
        Some(t) => {
            let server = match t.probe_host {
                Some(host) => Check::ProbeServer { chip: t.chip, host },
                None => Check::LocalProbe { chip: t.chip },
            };
            match t.token_file {
                Some(token_file) => seq![
                    Check::ProbeBinary,
                    server,
                    Check::ProbeToken { token_file },
                ],
                None => seq![Check::ProbeBinary, server],
            }
        },
    }
}

/// How an assistant is checked.
pub open spec fn assistant_check(a: AssistantConfig) -> Check {
    match a.addr {
        Some(addr) => Check::NetAssistant { name: a.name, addr, token: a.token_file },
        None => Check::UsbAssistant { name: a.name },
    }
}

/// How an instrument is checked.
pub open spec fn instrument_check(i: InstrumentConfig) -> Check {
    match i.address {
        Some(addr) => if is_network_addr(addr@) {
            Check::NetInstrument { name: i.name, addr }
        } else {
            Check::OtherInstrument { name: i.name, kind: i.kind }
        },
        None => Check::OtherInstrument { name: i.name, kind: i.kind },
    }
}

/// Everything that is checked, in order.
pub open spec fn planned(config: RigConfig) -> Seq<Check> {
    seq![arbiter_check(config)] + target_checks(config.target) + config.assistants@.map_values(
        |a: AssistantConfig| assistant_check(a),
    ) + config.instruments@.map_values(|i: InstrumentConfig| instrument_check(i)) + seq![
        Check::Artifacts,
    ]
}

fn copy_of(s: &Option<String>) -> (r: Option<String>)
    ensures
        r == *s,
{
    match s {
        Some(t) => Some(t.clone()),
        None => None,
    }
}

fn push_target(v: &mut Vec<Check>, target: &Option<TargetConfig>)
    ensures
        final(v)@ == old(v)@ + target_checks(*target),
{
    if let Some(t) = target {
        v.push(Check::ProbeBinary);
        match &t.probe_host {
            Some(host) => v.push(Check::ProbeServer { chip: t.chip.clone(), host: host.clone() }),
            None => v.push(Check::LocalProbe { chip: t.chip.clone() }),
        }
        if let Some(token_file) = &t.token_file {
            v.push(Check::ProbeToken { token_file: token_file.clone() });
        }
    }
    assert(v@ =~= old(v)@ + target_checks(*target));
}

fn push_assistants(v: &mut Vec<Check>, list: &Vec<AssistantConfig>)
    ensures
        final(v)@ == old(v)@ + list@.map_values(|a: AssistantConfig| assistant_check(a)),
{
    let ghost all = list@.map_values(|a: AssistantConfig| assistant_check(a));
    let ghost before = v@;
    let mut i: usize = 0;
    assert(before + all.take(0) =~= before);
    while i < list.len()
        invariant
            i <= list@.len(),
            all == list@.map_values(|a: AssistantConfig| assistant_check(a)),
            v@ == before + all.take(i as int),
        decreases list.len() - i,
    {
        let a = &list[i];
        let check = match &a.addr {
            Some(addr) => Check::NetAssistant {
                name: a.name.clone(),
                addr: addr.clone(),
                token: copy_of(&a.token_file),
            },
            None => Check::UsbAssistant { name: a.name.clone() },
        };
        assert(check == all[i as int]);
        v.push(check);
        assert(v@ =~= before + all.take(i + 1));
        i += 1;
    }
    assert(all.take(i as int) =~= all);
}

fn push_instruments(v: &mut Vec<Check>, list: &Vec<InstrumentConfig>)
    ensures
        final(v)@ == old(v)@ + list@.map_values(|i: InstrumentConfig| instrument_check(i)),
{
    let ghost all = list@.map_values(|i: InstrumentConfig| instrument_check(i));
    let ghost before = v@;
    let mut i: usize = 0;
    assert(before + all.take(0) =~= before);
    while i < list.len()
        invariant
            i <= list@.len(),
            all == list@.map_values(|i: InstrumentConfig| instrument_check(i)),
            v@ == before + all.take(i as int),
        decreases list.len() - i,
    {
        let d = &list[i];
        let other = Check::OtherInstrument { name: d.name.clone(), kind: d.kind.clone() };
        let check = match &d.address {
            Some(addr) => if has_char(addr.as_str(), ':') && !has_char(addr.as_str(), '/') {
                Check::NetInstrument { name: d.name.clone(), addr: addr.clone() }
            } else {
                other
            },
            None => other,
        };
        assert(check == all[i as int]);
        v.push(check);
        assert(v@ =~= before + all.take(i + 1));
        i += 1;
    }
    assert(all.take(i as int) =~= all);
}

/// Everything to check about a rig, in order: the lease or the lock, the
/// target, each assistant, each instrument, and where artifacts go.
pub fn doctor(config: &RigConfig) -> (r: Vec<Check>)
    ensures
        r@ == planned(*config),
{
    let mut v: Vec<Check> = Vec::new();
    match &config.rig.lease {
        Some(lease) => v.push(
            Check::Lease { addr: lease.addr.clone(), token_file: lease.token_file.clone() },
        ),
        None => v.push(Check::Lock),
    }
    assert(v@ =~= seq![arbiter_check(*config)]);
    push_target(&mut v, &config.target);
    push_assistants(&mut v, &config.assistants);
    push_instruments(&mut v, &config.instruments);
    v.push(Check::Artifacts);
    assert(v@ =~= planned(*config));
    v
}

/// A title, with a detail unless that is empty.
pub open spec fn detailed(what: Seq<char>, detail: Seq<char>) -> Seq<char> {
    if detail.len() == 0 {
        what
    } else {
        what + ": "@ + detail
    }
}

/// What an element is called; `place` is the path that belongs to it, if one
/// does.
pub open spec fn title(check: Check, place: Seq<char>) -> Seq<char> {
    match check {
        Check::Lease { addr, .. } => "lease server "@ + addr@,
        Check::Lock => "rig lock "@ + place,
        Check::ProbeBinary => "probe-rs at "@ + place,
        Check::ProbeServer { chip, host } => "target '"@ + chip@ + "' probe server "@ + host@,
        Check::LocalProbe { chip } => "target '"@ + chip@
            + "': local USB probe (not probed; use `banc probe info`)"@,
        Check::ProbeToken { .. } => "target probe token"@,
        Check::NetAssistant { name, addr, .. } => "assistant '"@ + name@ + "' at "@ + addr@,
        Check::UsbAssistant { name } => "assistant '"@ + name@
            + "': USB (checked at suite runtime, not here)"@,
        Check::NetInstrument { name, addr } => "instrument '"@ + name@ + "' at "@ + addr@,
        Check::OtherInstrument { name, kind } => "instrument '"@ + name@ + "' ("@ + kind@
            + "): no network address to probe"@,
        Check::Artifacts => "artifacts dir "@ + place,
    }
}

/// The element is only noted, not looked at.
pub open spec fn only_noted(check: Check) -> bool {
    check is LocalProbe || check is UsbAssistant || check is OtherInstrument
}

/// How an element is marked, given what was found.
pub open spec fn mark_of(check: Check, found: Result<String, String>) -> Mark {
    if only_noted(check) {
        Mark::Note
    } else if found is Ok {
        Mark::Good
    } else {
        Mark::Bad
    }
}

/// What is said about an element, given what was found.
pub open spec fn said_of(check: Check, place: Seq<char>, found: Result<String, String>) -> Seq<
    char,
> {
    if only_noted(check) {
        title(check, place)
    } else if check is ProbeBinary {
        if found is Ok {
            title(check, place)
        } else {
            "probe-rs not on PATH"@
        }
    } else {
        match found {
            Ok(detail) => detailed(title(check, place), detail@),
            Err(e) => title(check, place) + ": "@ + e@,
        }
    }
}

/// The text in front of a marked line.
pub open spec fn mark_text(mark: Mark) -> Seq<char> {
    match mark {
        Mark::Good => "  ok    "@,
        Mark::Bad => "  FAIL  "@,
        Mark::Note => "  --    "@,
    }
}

impl Check {
    /// What the element is called.
    pub fn what(&self, place: &str) -> (r: String)
        ensures
            r@ == title(*self, place@),
    {
        match self {
            Check::Lease { addr, .. } => join("lease server ", addr.as_str()),
            Check::Lock => join("rig lock ", place),
            Check::ProbeBinary => join("probe-rs at ", place),
            Check::ProbeServer { chip, host } => {
                let mut out = wrap("target '", chip.as_str(), "' probe server ");
                out.append(host.as_str());
                out
            },
            Check::LocalProbe { chip } => wrap(
                "target '",
                chip.as_str(),
                "': local USB probe (not probed; use `banc probe info`)",
            ),
            Check::ProbeToken { .. } => "target probe token".to_owned(),
            Check::NetAssistant { name, addr, .. } => {
                let mut out = wrap("assistant '", name.as_str(), "' at ");
                out.append(addr.as_str());
                out
            },
            Check::UsbAssistant { name } => wrap(
                "assistant '",
                name.as_str(),
                "': USB (checked at suite runtime, not here)",
            ),
            Check::NetInstrument { name, addr } => {
                let mut out = wrap("instrument '", name.as_str(), "' at ");
                out.append(addr.as_str());
                out
            },
            Check::OtherInstrument { name, kind } => {
                let mut out = wrap("instrument '", name.as_str(), "' (");
                out.append(kind.as_str());
                out.append("): no network address to probe");
                out
            },
            Check::Artifacts => join("artifacts dir ", place),
        }
    }
}

/// The tally of a visit.
#[derive(Debug)]
pub struct Doctor {
    pub failed: u32,
    pub passed: u32,
}

impl Doctor {
    /// A tally with nothing in it.
    pub fn new() -> (r: Self)
        ensures
            r.failed == 0,
            r.passed == 0,
    {
        Doctor { failed: 0, passed: 0 }
    }

    /// Counts an element that is in order, and returns the line to print.
    pub fn ok(&mut self, what: &str) -> (r: String)
        requires
            old(self).passed < u32::MAX,
        ensures
            final(self).passed == old(self).passed + 1,
            final(self).failed == old(self).failed,
            r@ == mark_text(Mark::Good) + what@,
    {
        self.passed += 1;
        join("  ok    ", what)
    }

    /// Counts an element that is not in order, and returns the line to print.
    pub fn fail(&mut self, what: &str) -> (r: String)
        requires
            old(self).failed < u32::MAX,
        ensures
            final(self).failed == old(self).failed + 1,
            final(self).passed == old(self).passed,
            r@ == mark_text(Mark::Bad) + what@,
    {
        self.failed += 1;
        join("  FAIL  ", what)
    }

    /// The line that notes an element without counting it.
    pub fn note(&self, what: &str) -> (r: String)
        ensures
            r@ == mark_text(Mark::Note) + what@,
    {
        join("  --    ", what)
    }

    /// Counts an element by what was found, and returns the line to print.
    pub fn check(&mut self, what: &str, found: Result<String, String>) -> (r: String)
        requires
            old(self).passed < u32::MAX,
            old(self).failed < u32::MAX,
        ensures
            final(self).passed == old(self).passed + (if found is Ok {
                1int
            } else {
                0
            }),
            final(self).failed == old(self).failed + (if found is Ok {
                0int
            } else {
                1
            }),
            r@ == match found {
                Ok(detail) => mark_text(Mark::Good) + detailed(what@, detail@),
                Err(e) => mark_text(Mark::Bad) + (what@ + ": "@ + e@),
            },
    {
        match found {
            Ok(detail) => if detail.as_str().is_empty() {
                self.ok(what)
            } else {
                let text = wrap(what, ": ", detail.as_str());
                self.ok(text.as_str())
            },
            Err(e) => {
                let text = wrap(what, ": ", e.as_str());
                self.fail(text.as_str())
            },
        }
    }

    /// Takes note of what was found about an element, and returns the line to
    /// print.
    pub fn report(&mut self, check: &Check, place: &str, found: Result<String, String>) -> (r:
        String)
        requires
            old(self).passed < u32::MAX,
            old(self).failed < u32::MAX,
        ensures
            r@ == mark_text(mark_of(*check, found)) + said_of(*check, place@, found),
            final(self).passed == old(self).passed + (if mark_of(*check, found) is Good {
                1int
            } else {
                0
            }),
            final(self).failed == old(self).failed + (if mark_of(*check, found) is Bad {
                1int
            } else {
                0
            }),
    {
        let what = check.what(place);
        match check {
            Check::LocalProbe { .. } | Check::UsbAssistant { .. } | Check::OtherInstrument {
                ..
            } => self.note(what.as_str()),
            Check::ProbeBinary => if found.is_ok() {
                self.ok(what.as_str())
            } else {
                self.fail("probe-rs not on PATH")
            },
            _ => self.check(what.as_str(), found),
        }
    }

    /// The summary line.
    pub fn summary(&self) -> (r: String)
        ensures
            r@ == dec(self.passed as nat) + " ok, "@ + dec(self.failed as nat) + " failed"@,
    {
        let mut out = String::new();
        push_dec(&mut out, self.passed as u128);
        out.append(" ok, ");
        push_dec(&mut out, self.failed as u128);
        out.append(" failed");
        assert(out@ =~= dec(self.passed as nat) + " ok, "@ + dec(self.failed as nat)
            + " failed"@);
        out
    }

    /// The exit code: success exactly when nothing failed.
    pub fn exit(&self) -> (r: u8)
        ensures
            r == (if self.failed == 0 {
                EXIT_OK
            } else {
                EXIT_FAILURE
            }),
    {
        if self.failed == 0 {
            EXIT_OK
        } else {
            EXIT_FAILURE
        }
    }
}

/// The first line about a rig: its name and where its config is.
pub fn heading(config: &RigConfig, dir: &str) -> (r: String)
    ensures
        r@ == "banc doctor \u{2014} rig '"@ + match config.rig.name {
            Some(name) => name@,
            None => "unnamed"@,
        } + "' ("@ + dir@ + ")"@,
{
    let name = match &config.rig.name {
        Some(n) => n.as_str(),
        None => "unnamed",
    };
    let mut out = wrap("banc doctor \u{2014} rig '", name, "' (");
    out.append(dir);
    out.append(")");
    out
}

/// What the config describes. A config that was loaded is sound, so this is
/// always in order.
pub fn inventory(config: &RigConfig) -> (r: String)
    ensures
        r@ == "config: "@ + dec(
            if config.target is Some {
                1nat
            } else {
                0
            },
        ) + " target, "@ + dec(config.assistants@.len()) + " assistant(s), "@ + dec(
            config.instruments@.len(),
        ) + " instrument(s)"@,
{
    let mut out = "config: ".to_owned();
    push_dec(
        &mut out,
        if config.target.is_some() {
            1
        } else {
            0
        },
    );
    out.append(" target, ");
    push_dec(&mut out, config.assistants.len() as u128);
    out.append(" assistant(s), ");
    push_dec(&mut out, config.instruments.len() as u128);
    out.append(" instrument(s)");
    out
}

/// Whether to try a network assistant, once its token, if it has one, was
/// read or not: a token that cannot be read is what is reported, and the node
/// is left alone.
pub fn after_token(token: Option<Result<String, String>>) -> (r: Result<(), String>)
    ensures
        match token {
            Some(Err(e)) => r == Err::<(), String>(e),
            _ => r is Ok,
        },
{
    match token {
        Some(Err(e)) => Err(e),
        _ => Ok(()),
    }
}

/// Who holds a lease, in a word.
pub fn lease_detail(status: &LeaseStatus) -> (r: String)
    ensures
        r@ == match status.holder {
            Some(h) => "held by '"@ + h@ + "'"@,
            None => "free"@,
        },
{
    match &status.holder {
        Some(h) => wrap("held by '", h.as_str(), "'"),
        None => "free".to_owned(),
    }
}

/// Who holds a lock, in a word.
pub fn lock_detail(status: &FlockStatus) -> (r: String)
    ensures
        r@ == match status {
            FlockStatus::Free => "free"@,
            FlockStatus::Held(Some(h)) => "held by '"@ + h.holder@ + "' (pid "@ + dec(
                h.pid as nat,
            ) + ")"@,
            FlockStatus::Held(None) => "held by an unidentified process"@,
        },
{
    match status {
        FlockStatus::Free => "free".to_owned(),
        FlockStatus::Held(Some(h)) => {
            let mut out = wrap("held by '", h.holder.as_str(), "' (pid ");
            push_dec(&mut out, h.pid as u128);
            out.append(")");
            out
        },
        FlockStatus::Held(None) => "held by an unidentified process".to_owned(),
    }
}

/// How many elements were found good and how many bad.
pub open spec fn tally(checks: Seq<Check>, found: Seq<Result<String, String>>) -> (int, int)
    decreases checks.len(),
{
    if checks.len() == 0 {
        (0, 0)
    } else {
        let (good, bad) = tally(checks.drop_last(), found.drop_last());
        match mark_of(checks.last(), found.last()) {
            Mark::Good => (good + 1, bad),
            Mark::Bad => (good, bad + 1),
            Mark::Note => (good, bad),
        }
    }
}

/// A visit succeeds exactly when no element that was looked at is out of
/// order; what was only noted does not count.
pub proof fn a_visit_passes_a_healthy_rig(checks: Seq<Check>, found: Seq<Result<String, String>>)
    requires
        checks.len() == found.len(),
    ensures
        0 <= tally(checks, found).0,
        0 <= tally(checks, found).1,
        tally(checks, found).0 + tally(checks, found).1 <= checks.len(),
        (tally(checks, found).1 == 0) == (forall|i: int|
            0 <= i < checks.len() && !only_noted(checks[i]) ==> #[trigger] found[i] is Ok),
    decreases checks.len(),
{
    if checks.len() > 0 {
        let c = checks.drop_last();
        let f = found.drop_last();
        a_visit_passes_a_healthy_rig(c, f);
        let last = checks.len() - 1;
        if tally(checks, found).1 == 0 {
            assert forall|i: int| 0 <= i < checks.len() && !only_noted(checks[i]) implies (
            #[trigger] found[i]) is Ok by {
                if i < last {
                    assert(c[i] == checks[i] && f[i] == found[i]);
                }
            }
        } else if forall|i: int|
            0 <= i < checks.len() && !only_noted(checks[i]) ==> #[trigger] found[i] is Ok {
            assert(found[last] == found.last());
            assert forall|i: int| 0 <= i < c.len() && !only_noted(c[i]) implies (
            #[trigger] f[i]) is Ok by {
                assert(found[i] == f[i]);
            }
        }
    }
}

/// Every element of a config is visited once: one entry for the lease or the
/// lock, two or three for a target, one for each assistant and each
/// instrument, and one for the artifacts.
pub proof fn every_element_is_visited(config: RigConfig, i: int)
    ensures
        planned(config).len() == 2 + target_checks(config.target).len()
            + config.assistants@.len() + config.instruments@.len(),
        0 <= i < config.assistants@.len() ==> planned(config)[1 + target_checks(
            config.target,
        ).len() + i] == assistant_check(config.assistants@[i]),
        0 <= i < config.instruments@.len() ==> planned(config)[1 + target_checks(
            config.target,
        ).len() + config.assistants@.len() + i] == instrument_check(config.instruments@[i]),
{
}

/// How many elements of a rig come before its assistants: the lease or the
/// lock, and those of the target.
pub open spec fn before_assistants(config: RigConfig) -> int {
    1 + (if config.target is None {
        0int
    } else if config.target->0.token_file is Some {
        3
    } else {
        2
    })
}

/// Every element of a rig is visited, each once and as what it is. First the
/// lease at its server, or the lock where there is none; then the target's
/// tool, its probe server or local probe, and its token; then every assistant
/// and every instrument in order, those with a network address at that
/// address; and last the artifacts.
pub proof fn a_visit_covers_the_rig(config: RigConfig, r: Vec<Check>)
    requires
        call_ensures(doctor, (&config,), r),
    ensures
        ({
            let n = before_assistants(config);
            let a = config.assistants@;
            let d = config.instruments@;
            &&& r@.len() == n + a.len() + d.len() + 1
            &&& config.rig.lease is None ==> r@[0] is Lock
            &&& config.rig.lease is Some ==> (r@[0] matches Check::Lease { addr, token_file }
                && addr@ == config.rig.lease->0.addr@ && token_file@
                == config.rig.lease->0.token_file@)
            &&& config.target is Some ==> {
                let t = config.target->0;
                &&& r@[1] is ProbeBinary
                &&& t.probe_host is Some ==> (r@[2] matches Check::ProbeServer { chip, host }
                    && chip@ == t.chip@ && host@ == t.probe_host->0@)
                &&& t.probe_host is None ==> (r@[2] matches Check::LocalProbe { chip } && chip@
                    == t.chip@)
                &&& t.token_file is Some ==> (r@[3] matches Check::ProbeToken { token_file }
                    && token_file@ == t.token_file->0@)
            }
            &&& forall|i: int| #![trigger a[i]]
                0 <= i < a.len() ==> {
                    &&& a[i].addr is Some ==> (r@[n + i] matches Check::NetAssistant {
                        name,
                        addr,
                        token,
                    } && name@ == a[i].name@ && addr@ == a[i].addr->0@ && token
                        == a[i].token_file)
                    &&& a[i].addr is None ==> (r@[n + i] matches Check::UsbAssistant { name }
                        && name@ == a[i].name@)
                }
            &&& forall|i: int| #![trigger d[i]]
                0 <= i < d.len() ==> {
                    let net = d[i].address is Some && d[i].address->0@.contains(':')
                        && !d[i].address->0@.contains('/');
                    let at = n + a.len() + i;
                    &&& net ==> (r@[at] matches Check::NetInstrument { name, addr } && name@
                        == d[i].name@ && addr@ == d[i].address->0@)
                    &&& !net ==> (r@[at] matches Check::OtherInstrument { name, kind } && name@
                        == d[i].name@ && kind@ == d[i].kind@)
                }
            &&& r@.last() is Artifacts
        }),
{
    let n = before_assistants(config);
    let a = config.assistants@;
    let d = config.instruments@;
    let p = planned(config);
    assert(r@ == p);
    assert(target_checks(config.target).len() == n - 1);
    assert forall|i: int| #![trigger a[i]] 0 <= i < a.len() implies p[n + i] == assistant_check(
        a[i],
    ) by {
        every_element_is_visited(config, i);
    }
    assert forall|i: int| #![trigger d[i]] 0 <= i < d.len() implies {
        let net = d[i].address is Some && d[i].address->0@.contains(':')
            && !d[i].address->0@.contains('/');
        &&& p[n + a.len() + i] == instrument_check(d[i])
        &&& net == (d[i].address is Some && is_network_addr(d[i].address->0@))
    } by {
        every_element_is_visited(config, i);
        if let Some(addr) = d[i].address {
            lemma_holds(addr@, ':');
            lemma_holds(addr@, '/');
        }
    }
}

proof fn lemma_holds(s: Seq<char>, c: char)
    ensures
        holds(s, c) == s.contains(c),
{
    if s.contains(c) {
        let i = choose|i: int| 0 <= i < s.len() && s[i] == c;
        assert(s[i] == c);
    }
}

/// An element that is looked at counts as passed when it was found in order
/// and as failed when it was not, and is marked as that; one that is only
/// noted never counts. Either line names it, and says what was found.
pub proof fn an_element_counts_by_what_was_found(
    tally: &mut Doctor,
    check: Check,
    place: &str,
    found: Result<String, String>,
    r: String,
    title: String,
)
    requires
        call_ensures(Doctor::report, (tally, &check, place, found), r),
        call_ensures(Check::what, (&check, place), title),
    ensures
        ({
            let noted = check is LocalProbe || check is UsbAssistant || check is OtherInstrument;
            let (p, f) = (old(tally).passed, old(tally).failed);
            &&& noted ==> final(tally).passed == p && final(tally).failed == f
            &&& !noted && found is Ok ==> final(tally).passed == p + 1 && final(tally).failed == f
            &&& !noted && found is Err ==> final(tally).passed == p && final(tally).failed == f + 1
            &&& noted ==> mentions(r@, "--"@)
            &&& !noted && found is Ok ==> mentions(r@, "ok"@)
            &&& !noted && found is Err ==> mentions(r@, "FAIL"@)
            &&& !(check is ProbeBinary) || found is Ok ==> mentions(r@, title@)
            &&& !noted && !(check is ProbeBinary) ==> (found matches Ok(detail) ==> mentions(
                r@,
                detail@,
            ))
            &&& !noted && !(check is ProbeBinary) ==> (found matches Err(e) ==> mentions(r@, e@))
        }),
{
    broadcast use crate::text::group_mentions;

    reveal_strlit("  ok    ");
    reveal_strlit("  FAIL  ");
    reveal_strlit("  --    ");
    reveal_strlit("  ");
    reveal_strlit("    ");
    reveal_strlit("ok");
    reveal_strlit("FAIL");
    reveal_strlit("--");
    assert("  ok    "@ =~= "  "@ + "ok"@ + "    "@);
    assert("  FAIL  "@ =~= "  "@ + "FAIL"@ + "  "@);
    assert("  --    "@ =~= "  "@ + "--"@ + "    "@);
    if let Ok(detail) = found {
        if detail@.len() == 0 {
            assert(r@.subrange(0, 0) =~= detail@);
            assert(crate::text::stands_at(r@, detail@, 0));
        }
    }
}

/// What an element is called says all that tells it from the others.
pub proof fn an_element_is_called_by_its_name(check: Check, place: &str, r: String)
    requires
        call_ensures(Check::what, (&check, place), r),
    ensures
        match check {
            Check::Lease { addr, .. } => r@ == "lease server "@ + addr@,
            Check::Lock => r@ == "rig lock "@ + place@,
            Check::ProbeBinary => r@ == "probe-rs at "@ + place@,
            Check::ProbeServer { chip, host } => r@ == "target '"@ + chip@ + "' probe server "@
                + host@,
            Check::LocalProbe { chip } => mentions(r@, "target '"@ + chip@),
            Check::ProbeToken { .. } => r@ == "target probe token"@,
            Check::NetAssistant { name, addr, .. } => r@ == "assistant '"@ + name@ + "' at "@
                + addr@,
            Check::UsbAssistant { name } => mentions(r@, "assistant '"@ + name@),
            Check::NetInstrument { name, addr } => r@ == "instrument '"@ + name@ + "' at "@ + addr@,
            Check::OtherInstrument { name, kind } => mentions(
                r@,
                "instrument '"@ + name@ + "' ("@ + kind@,
            ),
            Check::Artifacts => r@ == "artifacts dir "@ + place@,
        },
{
    broadcast use crate::text::group_mentions;

}

/// A visit starts with nothing counted, exits with 0 exactly when nothing
/// failed and with 1 otherwise, and its summary says both counts.
pub proof fn a_visit_exits_by_its_failures(
    fresh: Doctor,
    tally: Doctor,
    exit: u8,
    summary: String,
)
    requires
        call_ensures(Doctor::new, (), fresh),
        call_ensures(Doctor::exit, (&tally,), exit),
        call_ensures(Doctor::summary, (&tally,), summary),
    ensures
        fresh.passed == 0 && fresh.failed == 0,
        tally.failed == 0 ==> exit == 0,
        tally.failed > 0 ==> exit == 1,
        mentions(summary@, dec(tally.passed as nat) + " ok"@),
        mentions(summary@, dec(tally.failed as nat) + " failed"@),
{
    broadcast use crate::text::group_mentions;

    let p = dec(tally.passed as nat);
    let f = dec(tally.failed as nat);
    reveal_strlit(" ok, ");
    reveal_strlit(" ok");
    reveal_strlit(", ");
    assert(" ok, "@ =~= " ok"@ + ", "@);
    assert(summary@ =~= (p + " ok"@) + (", "@ + (f + " failed"@)));
}

/// Single lines are counted and marked as what they are.
pub proof fn a_line_counts_as_marked(
    good: &mut Doctor,
    what: &str,
    passed: String,
    bad: &mut Doctor,
    failed: String,
    tally: Doctor,
    noted: String,
)
    requires
        call_ensures(Doctor::ok, (good, what), passed),
        call_ensures(Doctor::fail, (bad, what), failed),
        call_ensures(Doctor::note, (&tally, what), noted),
    ensures
        final(good).passed == old(good).passed + 1 && final(good).failed == old(good).failed,
        final(bad).failed == old(bad).failed + 1 && final(bad).passed == old(bad).passed,
        mentions(passed@, what@),
        mentions(failed@, what@),
        mentions(noted@, what@),
{
    broadcast use crate::text::group_mentions;

}

/// What was found decides over a line: in order it passes, with what there is
/// to say, and otherwise it fails, with the reason.
pub proof fn what_was_found_decides_over_a_line(
    tally: &mut Doctor,
    what: &str,
    found: Result<String, String>,
    r: String,
)
    requires
        call_ensures(Doctor::check, (tally, what, found), r),
    ensures
        found is Ok ==> final(tally).passed == old(tally).passed + 1 && final(tally).failed == old(
            tally,
        ).failed,
        found is Err ==> final(tally).failed == old(tally).failed + 1 && final(tally).passed == old(
            tally,
        ).passed,
        found matches Ok(detail) ==> r@ == if detail@.len() == 0 {
            "  ok    "@ + what@
        } else {
            "  ok    "@ + (what@ + ": "@ + detail@)
        },
        found matches Err(e) ==> r@ == "  FAIL  "@ + (what@ + ": "@ + e@),
{
}

/// The first lines of a visit name the rig, where its config is, and how many
/// assistants and instruments it has.
pub proof fn a_visit_names_the_rig(
    config: RigConfig,
    dir: &str,
    heading_line: String,
    inventory_line: String,
)
    requires
        call_ensures(heading, (&config, dir), heading_line),
        call_ensures(inventory, (&config,), inventory_line),
    ensures
        mentions(heading_line@, dir@),
        config.rig.name is Some ==> mentions(heading_line@, config.rig.name->0@),
        config.rig.name is None ==> mentions(heading_line@, "unnamed"@),
        mentions(inventory_line@, dec(config.assistants@.len()) + " assistant(s)"@),
        mentions(inventory_line@, dec(config.instruments@.len()) + " instrument(s)"@),
        mentions(
            inventory_line@,
            if config.target is Some {
                "1 target"@
            } else {
                "0 target"@
            },
        ),
{
    broadcast use crate::text::group_mentions;

    let a = dec(config.assistants@.len());
    let i = dec(config.instruments@.len());
    let t = if config.target is Some {
        1nat
    } else {
        0
    };
    reveal_strlit(" target, ");
    reveal_strlit(", ");
    reveal_strlit(" assistant(s), ");
    reveal_strlit(" assistant(s)");
    reveal_strlit("1 target");
    reveal_strlit("0 target");
    assert(" assistant(s), "@ =~= " assistant(s)"@ + ", "@);
    let w = if config.target is Some {
        "1 target"@
    } else {
        "0 target"@
    };
    assert(dec(t) + " target, "@ =~= w + ", "@);
    assert(inventory_line@ =~= "config: "@ + (w + (", "@ + ((a + " assistant(s)"@) + (", "@ + (i
        + " instrument(s)"@))))));
}

/// A network assistant is tried exactly unless its token could not be read,
/// which is then what is reported.
pub proof fn a_node_without_its_token_is_not_tried(
    token: Option<Result<String, String>>,
    r: Result<(), String>,
)
    requires
        call_ensures(after_token, (token,), r),
    ensures
        r is Err == (token is Some && token->0 is Err),
        r matches Err(e) ==> e@ == token->0->Err_0@,
{
}

/// Whoever holds the lease or the lock is named, and one that nobody holds is
/// called free.
pub proof fn a_holder_is_named(
    lease: LeaseStatus,
    of_lease: String,
    lock: FlockStatus,
    of_lock: String,
)
    requires
        call_ensures(lease_detail, (&lease,), of_lease),
        call_ensures(lock_detail, (&lock,), of_lock),
    ensures
        lease.holder is Some ==> of_lease@ == "held by '"@ + lease.holder->0@ + "'"@,
        lease.holder is None ==> of_lease@ == "free"@,
        lock is Free ==> of_lock@ == "free"@,
        lock matches FlockStatus::Held(Some(h)) ==> of_lock@ == "held by '"@ + h.holder@
            + "' (pid "@ + dec(h.pid as nat) + ")"@,
        lock matches FlockStatus::Held(None) ==> mentions(of_lock@, "held by"@),
{
    broadcast use crate::text::group_mentions;

    reveal_strlit("held by an unidentified process");
    reveal_strlit("held by");
    reveal_strlit(" an unidentified process");
    assert("held by an unidentified process"@ =~= "held by"@ + " an unidentified process"@);
}

} // verus!
