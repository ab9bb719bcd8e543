//! The `banc` command line: what was asked for, what to run, and what to
//! print and exit with.

use crate::config::TargetConfig;
use crate::lease_client::LeaseStatus;
use crate::rig::FlockStatus;
use crate::text::{chars_of, dec, join, mentions, push_dec, same, string_of, texts, wrap};
use vstd::prelude::*;
use vstd::string::*;

verus! {

/// Exit code of success.
pub const EXIT_OK: u8 = 0;

/// Exit code of a failure: a rig is there but broken.
pub const EXIT_FAILURE: u8 = 1;

/// Exit code of "no rig here", and of a command that is not one.
pub const EXIT_ABSENT: u8 = 2;

/// What the command line asks for.
#[derive(Debug)]
pub enum Command {
    Doctor,
    RigStatus,
    Probe { verb: String, rest: Vec<String> },
    Help,
    /// No command; the arguments in a row.
    Unknown(String),
}

/// The contents of a [`Command`].
pub enum Wanted {
    Doctor,
    RigStatus,
    Probe { verb: Seq<char>, rest: Seq<Seq<char>> },
    Help,
    Unknown(Seq<char>),
}

impl View for Command {
    type V = Wanted;

    open spec fn view(&self) -> Wanted {
        match *self {
            Command::Doctor => Wanted::Doctor,
            Command::RigStatus => Wanted::RigStatus,
            Command::Probe { verb, rest } => Wanted::Probe { verb: verb@, rest: texts(rest@) },
            Command::Help => Wanted::Help,
            Command::Unknown(text) => Wanted::Unknown(text@),
        }
    }
}

/// Words with a blank between each two.
pub open spec fn spaced(words: Seq<Seq<char>>) -> Seq<char>
    decreases words.len(),
{
    if words.len() == 0 {
        seq![]
    } else if words.len() == 1 {
        words[0]
    } else {
        spaced(words.drop_last()) + " "@ + words.last()
    }
}

/// What the arguments `a` ask for.
pub open spec fn wanted(a: Seq<Seq<char>>) -> Wanted {
    if a.len() == 0 {
        Wanted::Help
    } else if a.len() == 1 && a[0] == "doctor"@ {
        Wanted::Doctor
    } else if a.len() == 2 && a[0] == "rig"@ && a[1] == "status"@ {
        Wanted::RigStatus
    } else if a.len() >= 2 && a[0] == "probe"@ {
        Wanted::Probe { verb: a[1], rest: a.skip(2) }
    } else if a.len() == 1 && (a[0] == "--help"@ || a[0] == "-h"@ || a[0] == "help"@) {
        Wanted::Help
    } else {
        Wanted::Unknown(spaced(a))
    }
}

fn spaced_string(words: &Vec<String>) -> (r: String)
    ensures
        r@ == spaced(texts(words@)),
{
    let ghost t = texts(words@);
    let mut out = String::new();
    let mut i: usize = 0;
    assert(t.take(0) =~= Seq::<Seq<char>>::empty());
    while i < words.len()
        invariant
            i <= words@.len(),
            t == texts(words@),
            out@ == spaced(t.take(i as int)),
        decreases words.len() - i,
    {
        if i > 0 {
            out.append(" ");
        }
        out.append(words[i].as_str());
        proof {
            assert(t.take(i + 1).drop_last() =~= t.take(i as int));
            assert(t.take(i + 1).last() == words@[i as int]@);
            assert(out@ =~= spaced(t.take(i + 1)));
        }
        i += 1;
    }
    assert(t.take(i as int) =~= t);
    out
}

impl Command {
    /// What the arguments ask for.
    pub fn parse(args: &Vec<String>) -> (r: Command)
        ensures
            r@ == wanted(texts(args@)),
    {
        let n: usize = args.len();
        if n == 0 {
            return Command::Help;
        }
        let first = args[0].as_str();
        assert(texts(args@)[0] == first@);
        if n == 1 && same(first, "doctor") {
            return Command::Doctor;
        }
        if n == 2 && same(first, "rig") && same(args[1].as_str(), "status") {
            return Command::RigStatus;
        }
        if n >= 2 && same(first, "probe") {
            let mut rest: Vec<String> = Vec::new();
            let mut i: usize = 2;
            while i < n
                invariant
                    2 <= i <= n == args@.len(),
                    rest@ == args@.subrange(2, i as int),
                decreases n - i,
            {
                rest.push(args[i].clone());
                i += 1;
            }
            assert(texts(rest@) =~= texts(args@).skip(2));
            return Command::Probe { verb: args[1].clone(), rest };
        }
        if n == 1 && (same(first, "--help") || same(first, "-h") || same(first, "help")) {
            return Command::Help;
        }
        Command::Unknown(spaced_string(args))
    }
}

/// Why there is no rig config to work with.
#[derive(Debug)]
pub enum NoConfig {
    Unusable(String),
    NoRig,
    Unlocatable(String),
}

/// What to print, and what to exit with.
#[derive(Debug)]
pub struct Report {
    pub text: String,
    /// Whether it goes to standard error.
    pub is_error: bool,
    pub exit: u8,
}

impl NoConfig {
    /// What to print: "no rig here" is told apart from "rig present but
    /// broken", so callers can tell a non-rig machine from a sick one.
    pub fn load_config(&self) -> (r: Report)
        ensures
            r.is_error,
            r.exit == (if self is NoRig {
                EXIT_ABSENT
            } else {
                EXIT_FAILURE
            }),
            r.text@ == match self {
                NoConfig::Unusable(e) => "rig config unusable: "@ + e@,
                NoConfig::NoRig =>
                    "no rig here: banc-rig.toml not found (set BANC_RIG or run from a rig checkout)"@,
                NoConfig::Unlocatable(e) => "locating rig config: "@ + e@,
            },
    {
        match self {
            NoConfig::Unusable(e) => failure(join("rig config unusable: ", e.as_str())),
            NoConfig::NoRig => Report {
                text:
                    "no rig here: banc-rig.toml not found (set BANC_RIG or run from a rig checkout)".to_owned(),
                is_error: true,
                exit: EXIT_ABSENT,
            },
            NoConfig::Unlocatable(e) => failure(join("locating rig config: ", e.as_str())),
        }
    }
}

fn failure(text: String) -> (r: Report)
    ensures
        r.text == text,
        r.is_error,
        r.exit == EXIT_FAILURE,
{
    Report { text, is_error: true, exit: EXIT_FAILURE }
}

fn answer(text: String) -> (r: Report)
    ensures
        r.text == text,
        !r.is_error,
        r.exit == EXIT_OK,
{
    Report { text, is_error: false, exit: EXIT_OK }
}

/// What was found out about who holds the rig.
#[derive(Debug)]
pub enum StatusFound {
    /// The lease's token cannot be read.
    BadToken(String),
    Lease { addr: String, lease: Result<LeaseStatus, String> },
    Lock { path: String, lock: Result<FlockStatus, String> },
}

impl StatusFound {
    /// The text that says who holds the rig, or why that is not known.
    pub open spec fn text(self) -> Seq<char> {
        match self {
            StatusFound::BadToken(e) => "lease token: "@ + e@,
            StatusFound::Lease { addr, lease: Ok(s) } => match s.holder {
                Some(holder) => "held by '"@ + holder@ + "' (lease at "@ + addr@ + ", expires in "@
                    + dec(s.expires_in_s as nat) + "s unless renewed)"@,
                None => "free (lease at "@ + addr@ + ")"@,
            },
            StatusFound::Lease { addr, lease: Err(e) } => "lease server "@ + addr@
                + " did not answer a status query: "@ + e@
                + "\n(an older rig daemon predates status; the rig may still be usable)"@,
            StatusFound::Lock { path, lock: Ok(FlockStatus::Free) } => "free (flock at "@ + path@
                + ")"@,
            StatusFound::Lock { path, lock: Ok(FlockStatus::Held(Some(h))) } => "held by '"@
                + h.holder@ + "' (pid "@ + dec(h.pid as nat) + ", since unix "@ + dec(
                h.since as nat,
            ) + ", flock at "@ + path@ + ")"@,
            StatusFound::Lock { path, lock: Ok(FlockStatus::Held(None)) } =>
                "held by an unidentified process (flock at "@ + path@ + ")"@,
            StatusFound::Lock { path, lock: Err(e) } => "probing rig lock: "@ + e@,
        }
    }

    /// Who holds the rig is known.
    pub open spec fn known(self) -> bool {
        match self {
            StatusFound::BadToken(_) => false,
            StatusFound::Lease { lease, .. } => lease is Ok,
            StatusFound::Lock { lock, .. } => lock is Ok,
        }
    }

    /// Says who holds the rig.
    pub fn rig_status(&self) -> (r: Report)
        ensures
            r.text@ == self.text(),
            r.is_error == !self.known(),
            r.exit == (if self.known() {
                EXIT_OK
            } else {
                EXIT_FAILURE
            }),
    {
        match self {
            StatusFound::BadToken(e) => failure(join("lease token: ", e.as_str())),
            StatusFound::Lease { addr, lease } => match lease {
                Ok(s) => match &s.holder {
                    Some(holder) => {
                        let mut out = wrap("held by '", holder.as_str(), "' (lease at ");
                        out.append(addr.as_str());
                        out.append(", expires in ");
                        push_dec(&mut out, s.expires_in_s as u128);
                        out.append("s unless renewed)");
                        answer(out)
                    },
                    None => answer(wrap("free (lease at ", addr.as_str(), ")")),
                },
                Err(e) => {
                    let mut out = wrap(
                        "lease server ",
                        addr.as_str(),
                        " did not answer a status query: ",
                    );
                    out.append(e.as_str());
                    out.append(
                        "\n(an older rig daemon predates status; the rig may still be usable)",
                    );
                    failure(out)
                },
            },
            StatusFound::Lock { path, lock } => match lock {
                Ok(FlockStatus::Free) => answer(wrap("free (flock at ", path.as_str(), ")")),
                Ok(FlockStatus::Held(Some(h))) => {
                    let mut out = wrap("held by '", h.holder.as_str(), "' (pid ");
                    push_dec(&mut out, h.pid as u128);
                    out.append(", since unix ");
                    push_dec(&mut out, h.since as u128);
                    out.append(", flock at ");
                    out.append(path.as_str());
                    out.append(")");
                    answer(out)
                },
                Ok(FlockStatus::Held(None)) => answer(
                    wrap("held by an unidentified process (flock at ", path.as_str(), ")"),
                ),
                Err(e) => failure(join("probing rig lock: ", e.as_str())),
            },
        }
    }
}

/// The token file that a probe command needs: only a remote probe server
/// takes a token.
pub fn probe_token_file(target: &TargetConfig) -> (r: Option<&String>)
    ensures
        match (target.probe_host, target.token_file) {
            (Some(_), Some(path)) => r == Some(&path),
            _ => r is None,
        },
{
    match (&target.probe_host, &target.token_file) {
        (Some(_), Some(path)) => Some(path),
        _ => None,
    }
}

/// The arguments of `probe-rs` for the configured target.
pub open spec fn probe_args_of(
    target: TargetConfig,
    verb: Seq<char>,
    token: Option<Seq<char>>,
    rest: Seq<Seq<char>>,
) -> Seq<Seq<char>> {
    let chip = if verb == "list"@ {
        seq![]
    } else {
        seq!["--chip"@, target.chip@] + match target.probe {
            Some(probe) => seq!["--probe"@, probe@],
            None => seq![],
        }
    };
    let host = match target.probe_host {
        Some(host) => seq!["--host"@, host@] + match token {
            Some(t) => seq!["--token"@, t],
            None => seq![],
        },
        None => seq![],
    };
    seq![verb] + chip + host + rest
}

/// The arguments of `probe-rs` for the configured target: chip, probe, server
/// and token are injected. `list` enumerates probes rather than talking to a
/// chip, so it gets neither chip nor probe.
pub fn probe(target: &TargetConfig, verb: &str, token: Option<&str>, rest: &Vec<String>) -> (r: Vec<
    String,
>)
    ensures
        texts(r@) == probe_args_of(*target, verb@, crate::node::text_in(token), texts(rest@)),
{
    let mut v: Vec<String> = Vec::new();
    v.push(verb.to_owned());
    if !same(verb, "list") {
        v.push("--chip".to_owned());
        v.push(target.chip.clone());
        if let Some(p) = &target.probe {
            v.push("--probe".to_owned());
            v.push(p.clone());
        }
    }
    if let Some(host) = &target.probe_host {
        v.push("--host".to_owned());
        v.push(host.clone());
        if let Some(t) = token {
            v.push("--token".to_owned());
            v.push(t.to_owned());
        }
    }
    let mut more = crate::device::copied(rest);
    v.append(&mut more);
    assert(texts(v@) =~= probe_args_of(
        *target,
        verb@,
        crate::node::text_in(token),
        texts(rest@),
    ));
    v
}

/// How a run of `probe-rs` ended.
#[derive(Debug)]
pub enum ProbeRun {
    NoTarget,
    BadToken(String),
    Exited(i32),
    Signalled,
    NotRun(String),
}

impl ProbeRun {
    /// What to print and exit with: the code of `probe-rs`, within what an
    /// exit code can be.
    pub fn report(&self) -> (r: Report)
        ensures
            r.text@ == match self {
                ProbeRun::NoTarget => "rig config has no [target]; nothing to probe"@,
                ProbeRun::BadToken(e) => "probe token: "@ + e@,
                ProbeRun::Exited(_) => Seq::<char>::empty(),
                ProbeRun::Signalled => "probe-rs terminated by signal"@,
                ProbeRun::NotRun(e) => "running probe-rs: "@ + e@
                    + " (is it installed and on PATH?)"@,
            },
            r.is_error == !(self is Exited),
            r.exit == match self {
                ProbeRun::Exited(code) => if *code < 0 {
                    0u8
                } else if *code > 255 {
                    255u8
                } else {
                    *code as u8
                },
                _ => EXIT_FAILURE,
            },
    {
        match self {
            ProbeRun::NoTarget => failure(
                "rig config has no [target]; nothing to probe".to_owned(),
            ),
            ProbeRun::BadToken(e) => failure(join("probe token: ", e.as_str())),
            ProbeRun::Exited(code) => Report {
                text: String::new(),
                is_error: false,
                exit: if *code < 0 {
                    0
                } else if *code > 255 {
                    255
                } else {
                    *code as u8
                },
            },
            ProbeRun::Signalled => failure("probe-rs terminated by signal".to_owned()),
            ProbeRun::NotRun(e) => failure(
                wrap("running probe-rs: ", e.as_str(), " (is it installed and on PATH?)"),
            ),
        }
    }
}

/// Where "://" first stands in `s`, from index `i` on.
pub open spec fn scheme_end(s: Seq<char>, i: int) -> Option<int>
    decreases s.len() - i,
{
    if i + 3 > s.len() {
        None
    } else if s[i] == ':' && s[i + 1] == '/' && s[i + 2] == '/' {
        Some(i)
    } else {
        scheme_end(s, i + 1)
    }
}

/// `s` without trailing slashes.
pub open spec fn without_slashes(s: Seq<char>) -> Seq<char>
    decreases s.len(),
{
    if s.len() > 0 && s.last() == '/' {
        without_slashes(s.drop_last())
    } else {
        s
    }
}

/// The host and port of an address that may carry a URL scheme.
pub open spec fn host_port_of(addr: Seq<char>) -> Seq<char> {
    match scheme_end(addr, 0) {
        Some(i) => without_slashes(addr.skip(i + 3)),
        None => without_slashes(addr),
    }
}

fn find_scheme(chars: &Vec<char>) -> (r: Option<usize>)
    ensures
        match scheme_end(chars@, 0) {
            Some(k) => r matches Some(i) && i == k && i + 3 <= chars@.len(),
            None => r is None,
        },
{
    let n: usize = chars.len();
    let mut i: usize = 0;
    while n - i >= 3
        invariant
            n == chars@.len(),
            i <= n,
            scheme_end(chars@, 0) == scheme_end(chars@, i as int),
        decreases n - i,
    {
        if chars[i] == ':' && chars[i + 1] == '/' && chars[i + 2] == '/' {
            return Some(i);
        }
        i += 1;
    }
    None
}

/// The host and port of an address that may carry a URL scheme
/// (`ws://host:port`) or be a bare `host:port`.
pub fn host_port(addr: &str) -> (r: String)
    ensures
        r@ == host_port_of(addr@),
{
    let chars = chars_of(addr);
    let n: usize = chars.len();
    let from: usize = match find_scheme(&chars) {
        Some(i) => i + 3,
        None => 0,
    };
    let mut to: usize = n;
    let ghost tail = chars@.skip(from as int);
    assert(from == 0 ==> tail =~= addr@);
    assert(chars@.subrange(from as int, n as int) =~= tail);
    while to > from && chars[to - 1] == '/'
        invariant
            from <= to <= n == chars@.len(),
            without_slashes(tail) == without_slashes(chars@.subrange(from as int, to as int)),
        decreases to,
    {
        assert(chars@.subrange(from as int, to as int).drop_last() =~= chars@.subrange(
            from as int,
            to - 1,
        ));
        to -= 1;
    }
    string_of(&chars, from, to)
}

/// What came of resolving a host and trying its addresses in turn.
#[derive(Debug)]
pub enum Reach {
    Unresolved(String),
    /// One of the addresses answered.
    Connected,
    /// None has so far; the last error, if an address was tried at all.
    Unanswered(Option<String>),
}

impl Reach {
    /// What has come of it after one more attempt.
    pub open spec fn after(self, attempt: Result<(), String>) -> Reach {
        match (self, attempt) {
            (Reach::Unanswered(_), Ok(_)) => Reach::Connected,
            (Reach::Unanswered(_), Err(e)) => Reach::Unanswered(Some(e)),
            (done, _) => done,
        }
    }

    /// Before any address was tried.
    pub fn untried() -> (r: Reach)
        ensures
            r == Reach::Unanswered(None),
    {
        Reach::Unanswered(None)
    }

    /// Whether there is still something to try.
    pub fn open(&self) -> (r: bool)
        ensures
            r == (self is Unanswered),
    {
        match self {
            Reach::Unanswered(_) => true,
            _ => false,
        }
    }

    /// Takes note of one attempt to connect: the first address that answers
    /// settles it, and of those that do not the last error is kept.
    pub fn tried(self, attempt: Result<(), String>) -> (r: Reach)
        ensures
            r == self.after(attempt),
    {
        match (self, attempt) {
            (Reach::Unanswered(_), Ok(_)) => Reach::Connected,
            (Reach::Unanswered(_), Err(e)) => Reach::Unanswered(Some(e)),
            (done, _) => done,
        }
    }
}

/// What has come of the first `n` attempts.
pub open spec fn reach_after(attempts: Seq<Result<(), String>>, n: int) -> Reach
    decreases n,
{
    if n <= 0 {
        Reach::Unanswered(None)
    } else {
        reach_after(attempts, n - 1).after(attempts[n - 1])
    }
}

/// A host is reached exactly when one of its addresses answers; otherwise
/// what is reported is the error of the last one, if it has any.
pub proof fn one_answer_is_enough(attempts: Seq<Result<(), String>>)
    ensures
        ({
            let end = reach_after(attempts, attempts.len() as int);
            &&& end is Connected == (exists|i: int|
                0 <= i < attempts.len() && (#[trigger] attempts[i]) is Ok)
            &&& !(end is Connected) ==> end == Reach::Unanswered(
                if attempts.len() == 0 {
                    None
                } else {
                    Some(attempts.last()->Err_0)
                },
            )
        }),
{
    lemma_reach(attempts, attempts.len() as int);
}

proof fn lemma_reach(attempts: Seq<Result<(), String>>, n: int)
    requires
        0 <= n <= attempts.len(),
    ensures
        reach_after(attempts, n) is Connected == (exists|i: int|
            0 <= i < n && (#[trigger] attempts[i]) is Ok),
        !(reach_after(attempts, n) is Connected) ==> reach_after(attempts, n)
            == Reach::Unanswered(
            if n == 0 {
                None
            } else {
                Some(attempts[n - 1]->Err_0)
            },
        ),
    decreases n,
{
    if n > 0 {
        lemma_reach(attempts, n - 1);
    }
}

/// Whether a host was reached.
pub fn tcp_reach(hostport: &str, reach: Reach) -> (r: Result<(), String>)
    ensures
        match reach {
            Reach::Connected => r is Ok,
            Reach::Unresolved(e) => r matches Err(text) && text@ == "resolving "@ + hostport@
                + ": "@ + e@,
            Reach::Unanswered(Some(e)) => r matches Err(text) && text@ == "connecting to "@
                + hostport@ + ": "@ + e@,
            Reach::Unanswered(None) => r matches Err(text) && text@ == hostport@
                + " resolved to no addresses"@,
        },
{
    match reach {
        Reach::Connected => Ok(()),
        Reach::Unresolved(e) => {
            let mut out = wrap("resolving ", hostport, ": ");
            out.append(e.as_str());
            Err(out)
        },
        Reach::Unanswered(Some(e)) => {
            let mut out = wrap("connecting to ", hostport, ": ");
            out.append(e.as_str());
            Err(out)
        },
        Reach::Unanswered(None) => Err(join(hostport, " resolved to no addresses")),
    }
}

/// How many arguments name the chip and the probe, and how many the server
/// and the token.
pub open spec fn injected(target: TargetConfig, verb: Seq<char>, token: bool) -> (int, int) {
    (
        if verb == "list"@ {
            0
        } else if target.probe is Some {
            4
        } else {
            2
        },
        if target.probe_host is None {
            0
        } else if token {
            4
        } else {
            2
        },
    )
}

/// What `probe-rs` is run with: the verb first, then, unless it is `list`,
/// the configured chip and the configured probe, then the server and its
/// token where there is one, and last all of the user's own arguments,
/// unchanged and in order.
pub proof fn a_probe_run_ends_with_what_was_typed(
    target: TargetConfig,
    verb: &str,
    token: Option<&str>,
    rest: Vec<String>,
    r: Vec<String>,
)
    requires
        call_ensures(probe, (&target, verb, token, &rest), r),
    ensures
        ({
            let (c, h) = injected(target, verb@, token is Some);
            &&& r@.len() == 1 + c + h + rest@.len()
            &&& r@[0]@ == verb@
            &&& verb@ != "list"@ ==> r@[1]@ == "--chip"@ && r@[2]@ == target.chip@
            &&& verb@ != "list"@ && target.probe is Some ==> r@[3]@ == "--probe"@ && r@[4]@
                == target.probe->0@
            &&& target.probe_host is Some ==> r@[1 + c]@ == "--host"@ && r@[2 + c]@
                == target.probe_host->0@
            &&& target.probe_host is Some && token is Some ==> r@[3 + c]@ == "--token"@ && r@[4
                + c]@ == token->0@
        }),
        forall|i: int|
            0 <= i < rest@.len() ==> (#[trigger] rest@[i])@ == r@[r@.len() - rest@.len() + i]@,
{
    let (c, h) = injected(target, verb@, token is Some);
    let t = texts(r@);
    assert(t == probe_args_of(target, verb@, crate::node::text_in(token), texts(rest@)));
    assert(t.len() == r@.len());
    assert(t[0] == r@[0]@);
    if c > 0 {
        assert(t[1] == r@[1]@);
        assert(t[2] == r@[2]@);
    }
    if c > 2 {
        assert(t[3] == r@[3]@);
        assert(t[4] == r@[4]@);
    }
    if h > 0 {
        assert(t[1 + c] == r@[1 + c]@);
        assert(t[2 + c] == r@[2 + c]@);
    }
    if h > 2 {
        assert(t[3 + c] == r@[3 + c]@);
        assert(t[4 + c] == r@[4 + c]@);
    }
    assert forall|i: int| 0 <= i < rest@.len() implies (#[trigger] rest@[i])@ == r@[r@.len()
        - rest@.len() + i]@ by {
        let k = r@.len() - rest@.len() + i;
        assert(t[k] == r@[k]@);
        assert(texts(rest@)[i] == rest@[i]@);
    }
}

/// A token file is read exactly for a remote probe server that has one.
pub proof fn only_a_server_takes_a_token(target: TargetConfig, r: Option<&String>)
    requires
        call_ensures(probe_token_file, (&target,), r),
    ensures
        r is Some == (target.probe_host is Some && target.token_file is Some),
        r matches Some(path) ==> path@ == target.token_file->0@,
{
}

/// The words stand in `text` one after the other, with one blank between each
/// two: word `i` at `at[i]`.
pub open spec fn words_stand(text: Seq<char>, words: Seq<Seq<char>>, at: Seq<int>) -> bool {
    &&& at.len() == words.len()
    &&& words.len() == 0 ==> text.len() == 0
    &&& words.len() > 0 ==> at[0] == 0 && at.last() + words.last().len() == text.len()
    &&& forall|i: int|
        0 <= i < words.len() ==> crate::text::stands_at(text, words[i], #[trigger] at[i])
    &&& forall|i: int|
        0 <= i && i + 1 < words.len() ==> text[at[i] + words[i].len()] == ' ' && at[i + 1]
            == #[trigger] at[i] + words[i].len() + 1
}

proof fn lemma_spaced(words: Seq<Seq<char>>) -> (at: Seq<int>)
    ensures
        words_stand(spaced(words), words, at),
    decreases words.len(),
{
    let text = spaced(words);
    if words.len() == 0 {
        seq![]
    } else if words.len() == 1 {
        assert(text.subrange(0, text.len() as int) =~= words[0]);
        assert(crate::text::stands_at(text, words[0], 0));
        seq![0int]
    } else {
        let w = words.drop_last();
        let before = lemma_spaced(w);
        let head = spaced(w);
        let k = head.len() as int + 1;
        let at = before.push(k);
        reveal_strlit(" ");
        assert forall|i: int| 0 <= i < words.len() implies crate::text::stands_at(
            text,
            words[i],
            #[trigger] at[i],
        ) by {
            if i < w.len() {
                assert(crate::text::stands_at(head, w[i], before[i]));
                assert(text.subrange(at[i], at[i] + words[i].len()) =~= head.subrange(
                    before[i],
                    before[i] + w[i].len(),
                ));
            } else {
                assert(text.subrange(k, k + words.last().len()) =~= words.last());
            }
        }
        assert forall|i: int| 0 <= i && i + 1 < words.len() implies text[at[i] + words[i].len()]
            == ' ' && at[i + 1] == #[trigger] at[i] + words[i].len() + 1 by {
            if i + 1 < w.len() {
                assert(crate::text::stands_at(head, w[i + 1], before[i + 1]));
                assert(before[i + 1] == before[i] + w[i].len() + 1);
                assert(text[at[i] + words[i].len()] == head[before[i] + w[i].len()]);
            } else {
                assert(before.last() == before[i]);
            }
        }
        at
    }
}

/// The command line is understood exactly: `doctor`, `rig status`, `probe`
/// with a verb and whatever follows it, a call for help or nothing at all;
/// everything else is unknown, and is shown as it was typed.
pub proof fn the_command_line_is_understood(args: Vec<String>, r: Command)
    requires
        call_ensures(Command::parse, (&args,), r),
    ensures
        ({
            let n = args@.len();
            let a = |i: int| args@[i]@;
            &&& r is Doctor == (n == 1 && a(0) == "doctor"@)
            &&& r is RigStatus == (n == 2 && a(0) == "rig"@ && a(1) == "status"@)
            &&& r is Probe == (n >= 2 && a(0) == "probe"@)
            &&& r is Help == (n == 0 || (n == 1 && (a(0) == "--help"@ || a(0) == "-h"@ || a(0)
                == "help"@)))
        }),
        r matches Command::Probe { verb, rest } ==> verb@ == args@[1]@ && rest@.len() + 2
            == args@.len() && forall|i: int|
            0 <= i < rest@.len() ==> (#[trigger] rest@[i])@ == args@[i + 2]@,
        r matches Command::Unknown(text) ==> exists|at: Seq<int>| #[trigger]
            words_stand(text@, texts(args@), at),
{
    reveal_strlit("doctor");
    reveal_strlit("rig");
    reveal_strlit("status");
    reveal_strlit("probe");
    reveal_strlit("--help");
    reveal_strlit("-h");
    reveal_strlit("help");
    let t = texts(args@);
    assert(t.len() == args@.len());
    assert(r@ == wanted(t));
    if args@.len() > 0 {
        assert(t[0] == args@[0]@);
        assert("doctor"@[0] != "rig"@[0] && "doctor"@[0] != "probe"@[0]);
        assert("rig"@[0] != "probe"@[0]);
        assert("doctor"@[0] != "--help"@[0] && "doctor"@[0] != "-h"@[0] && "doctor"@[0]
            != "help"@[0]);
        assert("probe"@[0] != "rig"@[0]);
    }
    if args@.len() > 1 {
        assert(t[1] == args@[1]@);
    }
    if let Command::Probe { verb, rest } = r {
        assert(r@->rest == texts(rest@));
        assert(texts(rest@).len() == rest@.len());
        assert forall|i: int| 0 <= i < rest@.len() implies (#[trigger] rest@[i])@ == args@[i
            + 2]@ by {
            assert(texts(rest@)[i] == rest@[i]@);
            assert(t.skip(2)[i] == t[i + 2]);
            assert(t[i + 2] == args@[i + 2]@);
        }
    }
    if let Command::Unknown(text) = r {
        let at = lemma_spaced(t);
        assert(words_stand(text@, t, at));
    }
}

/// A machine without a rig is told from one whose rig is broken by the exit
/// code: 2 for the one, 1 for the other. Both are reported as errors, with
/// what went wrong.
pub proof fn no_rig_is_told_from_a_broken_one(no: NoConfig, r: Report)
    requires
        call_ensures(NoConfig::load_config, (&no,), r),
    ensures
        r.is_error,
        no is NoRig ==> r.exit == 2,
        !(no is NoRig) ==> r.exit == 1,
        no matches NoConfig::Unusable(e) ==> mentions(r.text@, e@),
        no matches NoConfig::Unlocatable(e) ==> mentions(r.text@, e@),
{
    broadcast use crate::text::group_mentions;

}

/// Whoever holds the rig is named, and where that was found out; a rig that
/// nobody holds is called free. Only when that is not known is it an error,
/// which exits with 1 and says why.
pub proof fn the_status_names_the_holder(found: StatusFound, r: Report)
    requires
        call_ensures(StatusFound::rig_status, (&found,), r),
    ensures
        r.is_error == (r.exit == 1),
        !r.is_error == (r.exit == 0),
        match found {
            StatusFound::BadToken(e) => r.is_error && mentions(r.text@, e@),
            StatusFound::Lease { addr, lease: Ok(s) } => {
                &&& !r.is_error
                &&& s.holder matches Some(h) ==> r.text@ == "held by '"@ + h@ + "' (lease at "@
                    + addr@ + ", expires in "@ + dec(s.expires_in_s as nat) + "s unless renewed)"@
                &&& s.holder is None ==> r.text@ == "free (lease at "@ + addr@ + ")"@
            },
            StatusFound::Lease { addr, lease: Err(e) } => r.is_error && mentions(
                r.text@,
                "lease server "@ + addr@ + " did not answer a status query: "@ + e@,
            ),
            StatusFound::Lock { path, lock: Ok(FlockStatus::Free) } => !r.is_error && r.text@
                == "free (flock at "@ + path@ + ")"@,
            StatusFound::Lock { path, lock: Ok(FlockStatus::Held(Some(h))) } => !r.is_error
                && r.text@ == "held by '"@ + h.holder@ + "' (pid "@ + dec(h.pid as nat)
                + ", since unix "@ + dec(h.since as nat) + ", flock at "@ + path@ + ")"@,
            StatusFound::Lock { path, lock: Ok(FlockStatus::Held(None)) } => !r.is_error
                && r.text@ == "held by an unidentified process (flock at "@ + path@ + ")"@,
            StatusFound::Lock { path, lock: Err(e) } => r.is_error && mentions(r.text@, e@),
        },
{
    broadcast use crate::text::group_mentions;

}

/// A run of `probe-rs` that ended by itself is reported by nothing but its
/// exit code, held within what an exit code can be; every other is an error
/// that exits with 1, and says why.
pub proof fn a_probe_run_passes_its_code_on(run: ProbeRun, r: Report)
    requires
        call_ensures(ProbeRun::report, (&run,), r),
    ensures
        match run {
            ProbeRun::Exited(code) => {
                &&& !r.is_error
                &&& r.text@.len() == 0
                &&& 0 <= code <= 255 ==> r.exit == code
                &&& code < 0 ==> r.exit == 0
                &&& code > 255 ==> r.exit == 255
            },
            ProbeRun::BadToken(e) => r.is_error && r.exit == 1 && mentions(r.text@, e@),
            ProbeRun::NotRun(e) => r.is_error && r.exit == 1 && mentions(r.text@, e@),
            _ => r.is_error && r.exit == 1 && r.text@.len() > 0,
        },
{
    broadcast use crate::text::group_mentions;

    reveal_strlit("rig config has no [target]; nothing to probe");
    reveal_strlit("probe-rs terminated by signal");
}

/// "://" stands in `s` at index `i`.
pub open spec fn scheme_at(s: Seq<char>, i: int) -> bool {
    0 <= i && i + 3 <= s.len() && s[i] == ':' && s[i + 1] == '/' && s[i + 2] == '/'
}

/// `hp` stands in `addr` from `from` on, and all that follows it there is
/// slashes.
pub open spec fn then_slashes(addr: Seq<char>, hp: Seq<char>, from: int) -> bool {
    &&& crate::text::stands_at(addr, hp, from)
    &&& forall|i: int| from + hp.len() <= i < addr.len() ==> #[trigger] addr[i] == '/'
}

/// Host and port are what stands after the first "://", or from the start
/// where there is none, up to the slashes at the end, of which none is left.
pub proof fn host_and_port_are_cut_out(addr: &str, r: String)
    requires
        call_ensures(host_port, (addr,), r),
    ensures
        r@.len() > 0 ==> r@.last() != '/',
        (forall|i: int| !#[trigger] scheme_at(addr@, i)) ==> then_slashes(addr@, r@, 0),
        forall|k: int|
            #[trigger] scheme_at(addr@, k) && (forall|i: int|
                0 <= i < k ==> !#[trigger] scheme_at(addr@, i)) ==> then_slashes(
                addr@,
                r@,
                k + 3,
            ),
{
    lemma_scheme_end(addr@, 0);
    match scheme_end(addr@, 0) {
        Some(k) => {
            let tail = addr@.skip(k + 3);
            lemma_without_slashes(tail);
            assert(addr@.subrange(k + 3, k + 3 + r@.len()) =~= r@);
            assert forall|i: int| k + 3 + r@.len() <= i < addr@.len() implies #[trigger] addr@[i]
                == '/' by {
                assert(tail[i - k - 3] == addr@[i]);
            }
            assert(then_slashes(addr@, r@, k + 3));
            assert(scheme_at(addr@, k));
        },
        None => {
            lemma_without_slashes(addr@);
            assert(addr@.subrange(0, r@.len() as int) =~= r@);
        },
    }
}

proof fn lemma_scheme_end(s: Seq<char>, i: int)
    requires
        0 <= i,
    ensures
        match scheme_end(s, i) {
            Some(k) => i <= k && scheme_at(s, k) && forall|j: int|
                i <= j < k ==> !#[trigger] scheme_at(s, j),
            None => forall|j: int| i <= j ==> !#[trigger] scheme_at(s, j),
        },
    decreases s.len() - i,
{
    if i + 3 <= s.len() && !(s[i] == ':' && s[i + 1] == '/' && s[i + 2] == '/') {
        lemma_scheme_end(s, i + 1);
    }
}

proof fn lemma_without_slashes(s: Seq<char>)
    ensures
        without_slashes(s).len() <= s.len(),
        without_slashes(s) == s.take(without_slashes(s).len() as int),
        without_slashes(s).len() > 0 ==> without_slashes(s).last() != '/',
        forall|i: int| without_slashes(s).len() <= i < s.len() ==> #[trigger] s[i] == '/',
    decreases s.len(),
{
    if s.len() > 0 && s.last() == '/' {
        lemma_without_slashes(s.drop_last());
        assert forall|i: int| without_slashes(s).len() <= i < s.len() implies #[trigger] s[i]
            == '/' by {
            if i < s.len() - 1 {
                assert(s.drop_last()[i] == s[i]);
            }
        }
        assert(s.drop_last().take(without_slashes(s).len() as int) =~= s.take(
            without_slashes(s).len() as int,
        ));
    } else {
        assert(s.take(s.len() as int) =~= s);
    }
}

/// One attempt to connect: as long as no address has answered, an answer
/// settles it and an error replaces the one before; once it is settled, or
/// the host was not found, nothing is tried or changes.
pub proof fn one_attempt_counts(
    fresh: Reach,
    reach: Reach,
    attempt: Result<(), String>,
    open: bool,
    r: Reach,
)
    requires
        call_ensures(Reach::untried, (), fresh),
        call_ensures(Reach::open, (&reach,), open),
        call_ensures(Reach::tried, (reach, attempt), r),
    ensures
        fresh == Reach::Unanswered(None),
        open == !(reach is Connected || reach is Unresolved),
        open && attempt is Ok ==> r is Connected,
        open && attempt is Err ==> (r matches Reach::Unanswered(Some(e)) && e@ == attempt->Err_0@),
        !open ==> r == reach,
{
}

/// A host is reached exactly when an address answered; every other report
/// names the host, and the reason where there is one.
pub proof fn reached_is_answered(hostport: &str, reach: Reach, r: Result<(), String>)
    requires
        call_ensures(tcp_reach, (hostport, reach), r),
    ensures
        r is Ok == reach is Connected,
        match reach {
            Reach::Connected => true,
            Reach::Unresolved(e) => r->Err_0@ == "resolving "@ + hostport@ + ": "@ + e@,
            Reach::Unanswered(Some(e)) => r->Err_0@ == "connecting to "@ + hostport@ + ": "@ + e@,
            Reach::Unanswered(None) => r->Err_0@ == hostport@ + " resolved to no addresses"@,
        },
{
}

} // verus!
