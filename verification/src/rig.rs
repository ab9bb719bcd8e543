//! Rig acquisition: find the topology config, take the cross-process lock or
//! the network lease, hand out fixtures.
//!
//! A missing config is an honest skip. Everything that goes wrong once there
//! is one is a failure: a rig machine that cannot run its suite has failed,
//! it has not skipped.

use crate::config::{
    index_of_name, validation_accepts_exactly_runnable, AssistantConfig, LeaseConfig, RigConfig,
    CONFIG_FILE, ENV_VAR,
};
use crate::locate::{dangling_message, dangling_text, LoadError, Place, Search};
use crate::text::{
    blank, dec, is_blank, join, mentions, parse_u64, parsed_u64, push_dec,
    show_span, span, trim, trimmed, wrap,
};
use vstd::prelude::*;
use vstd::string::*;

verus! {

/// How long a process waits for another test process to release the rig
/// before giving up, in seconds, unless BANC_LOCK_TIMEOUT_SECS says otherwise.
pub const DEFAULT_LOCK_TIMEOUT_S: u64 = 300;

/// Pause between two attempts to take the rig lock, in milliseconds.
pub const LOCK_PAUSE_MS: u64 = 200;

/// Why no rig was acquired.
#[derive(Debug)]
pub enum Acquire {
    /// No rig on this machine: report the test as ignored, with this reason.
    Skip(String),
    /// A rig is configured but broken/contended: report a failure.
    Fail(String),
}

/// Where a file is.
#[derive(Debug)]
pub enum Located {
    /// At this path.
    AsIs(String),
    /// At this path, taken from the rig-config directory.
    InConfigDir(String),
    /// Under this name in the `target` directory of the rig-config directory.
    InTargetDir(&'static str),
}

/// The holder note a lock-taker writes into the lock file: the lock itself
/// carries no identity.
#[derive(Debug, Clone)]
pub struct LockHolder {
    pub holder: String,
    pub pid: u32,
    /// Unix seconds when the lock was taken.
    pub since: u64,
}

/// Whether a lock-arbitrated rig is currently held.
#[derive(Debug)]
pub enum FlockStatus {
    Free,
    /// Held; the note is None when the holder left nothing legible.
    Held(Option<LockHolder>),
}

/// What a look at the lock file found.
#[derive(Debug)]
pub enum LockProbe {
    /// There is no such file.
    Missing,
    /// It cannot be opened.
    Unopenable(String),
    /// Its lock cannot be tried.
    Untriable(String),
    /// Its lock could be taken (and was released again).
    Taken,
    /// Its lock is held; this is what the file says of the holder.
    Refused(Option<LockHolder>),
}

/// What to do after one attempt to take the rig lock.
#[derive(Debug, Clone, Copy, PartialEq, Eq, Structural)]
pub enum LockStep {
    /// It is ours: leave a note of who we are.
    Held,
    /// Pause, then try again.
    Retry,
    /// Say who holds it and give up.
    GiveUp,
}

/// Why a token file does not give a token.
#[derive(Debug)]
pub enum TokenError {
    Unreadable { path: String, e: String },
    Empty { path: String },
}

/// How far the acquisition of the rig is, and what comes next.
#[derive(Debug)]
pub enum Acquisition {
    /// Look for the rig config.
    Searching(Search),
    /// Read, parse and accept the config found there.
    Loading(Place),
    /// Read the lease's token.
    ReadingToken { config: RigConfig, lease: LeaseConfig, timeout_s: u64 },
    /// Acquire the network lease.
    TakingLease { config: RigConfig, addr: String, token: String, timeout_s: u64 },
    /// Take the lock file.
    TakingLock { config: RigConfig, path: Located, timeout_s: u64 },
    /// The rig is ours.
    Ready(Rig),
    Stopped(Acquire),
}

/// What happened to the last step of an acquisition.
#[derive(Debug)]
pub enum Progress {
    /// The config file looked for is there or not; the directory it was
    /// looked for in has a parent or not.
    Looked { is_file: bool, has_parent: bool },
    /// The config file cannot be read.
    Unreadable(String),
    /// The config file at this path was read, and parsed or not. With it come
    /// the timeout setting, if any, and whether the lock file that the config
    /// names is an absolute path.
    Loaded {
        path: String,
        parsed: Result<RigConfig, String>,
        timeout: Option<String>,
        absolute: bool,
    },
    /// The token file at this path was read or not.
    Token { path: String, read: Result<String, String> },
    /// The lease or the lock was taken or not.
    Taken(Result<(), String>),
}

/// An acquired rig.
#[derive(Debug)]
pub struct Rig {
    pub config: RigConfig,
}

/// The text that says why suites skip.
pub open spec fn skip_text() -> Seq<char> {
    "no rig: "@ + CONFIG_FILE@ + " not found (set "@ + ENV_VAR@
        + " or create one to run on hardware)"@
}

/// The timeout, in seconds, that a setting stands for.
pub open spec fn timeout_of(setting: Option<Seq<char>>) -> u64 {
    match setting {
        Some(s) => match parsed_u64(s) {
            Some(n) => n,
            None => DEFAULT_LOCK_TIMEOUT_S,
        },
        None => DEFAULT_LOCK_TIMEOUT_S,
    }
}

/// The timeout, in seconds, that a setting stands for: the default when it is
/// missing or not a number.
pub fn lock_timeout(setting: Option<&str>) -> (r: u64)
    ensures
        r == timeout_of(crate::node::text_in(setting)),
{
    match setting {
        Some(s) => match parse_u64(s) {
            Some(n) => n,
            None => DEFAULT_LOCK_TIMEOUT_S,
        },
        None => DEFAULT_LOCK_TIMEOUT_S,
    }
}

/// Where a configured path is.
pub open spec fn resolved(path: String, absolute: bool) -> Located {
    if absolute {
        Located::AsIs(path)
    } else {
        Located::InConfigDir(path)
    }
}

/// Where a configured path is: relative paths are taken from the rig-config
/// directory.
pub fn resolve(path: String, absolute: bool) -> (r: Located)
    ensures
        r == resolved(path, absolute),
{
    if absolute {
        Located::AsIs(path)
    } else {
        Located::InConfigDir(path)
    }
}

/// Where the lock file of a rig is.
pub open spec fn lock_file_of(config: RigConfig, absolute: bool) -> Located {
    match config.rig.lock_file {
        Some(path) => resolved(path, absolute),
        None => Located::InTargetDir("banc.lock"),
    }
}

/// The advisory lock path: `rig.lock_file` resolved against the config dir,
/// defaulting to `target/banc.lock`. `absolute` says whether `rig.lock_file`
/// is an absolute path.
pub fn lock_path(config: &RigConfig, absolute: bool) -> (r: Located)
    ensures
        r == lock_file_of(*config, absolute),
{
    match &config.rig.lock_file {
        Some(path) => resolve(path.clone(), absolute),
        None => Located::InTargetDir("banc.lock"),
    }
}

/// Who this process is when contending for the rig: the name it was given,
/// else host:pid.
pub fn holder_identity(given: Option<String>, host: Option<String>, pid: u32) -> (r: String)
    ensures
        r@ == match given {
            Some(name) => name@,
            None => (match host {
                Some(h) => h@,
                None => "?"@,
            }) + ":"@ + dec(pid as nat),
        },
{
    match given {
        Some(name) => name,
        None => {
            let host = match host {
                Some(h) => h,
                None => "?".to_owned(),
            };
            let mut out = join(host.as_str(), ":");
            push_dec(&mut out, pid as u128);
            out
        },
    }
}

/// The token in a file that was read or not: its text, trimmed. An empty
/// token authenticates nothing, so it is an error.
pub fn read_token(path: &str, read: Result<String, String>) -> (r: Result<String, TokenError>)
    ensures
        match read {
            Err(e) => r matches Err(TokenError::Unreadable { path: p, e: err }) && p@ == path@
                && err == e,
            Ok(text) => if blank(text@) {
                r matches Err(TokenError::Empty { path: p }) && p@ == path@
            } else {
                r matches Ok(token) && token@ == trimmed(text@)
            },
        },
{
    match read {
        Err(e) => Err(TokenError::Unreadable { path: path.to_owned(), e }),
        Ok(text) => {
            let token = trim(text.as_str());
            proof {
                crate::text::lemma_trimmed_empty(text@);
            }
            if token.as_str().is_empty() {
                Err(TokenError::Empty { path: path.to_owned() })
            } else {
                Ok(token)
            }
        },
    }
}

impl TokenError {
    /// The text that reports the error.
    pub open spec fn text(self) -> Seq<char> {
        match self {
            TokenError::Unreadable { path, e } => "reading token file "@ + path@ + ": "@ + e@,
            TokenError::Empty { path } => "token file "@ + path@ + " is empty"@,
        }
    }

    /// Reports the error.
    pub fn to_string(&self) -> (r: String)
        ensures
            r@ == self.text(),
    {
        match self {
            TokenError::Unreadable { path, e } => {
                let mut out = wrap("reading token file ", path.as_str(), ": ");
                out.append(e.as_str());
                out
            },
            TokenError::Empty { path } => wrap("token file ", path.as_str(), " is empty"),
        }
    }
}

impl LockStep {
    /// What to do after an attempt to take the rig lock.
    pub fn take(locked: bool, past_deadline: bool) -> (r: LockStep)
        ensures
            r == if locked {
                LockStep::Held
            } else if past_deadline {
                LockStep::GiveUp
            } else {
                LockStep::Retry
            },
    {
        if locked {
            LockStep::Held
        } else if past_deadline {
            LockStep::GiveUp
        } else {
            LockStep::Retry
        }
    }
}

/// The text that describes who holds a lock.
pub open spec fn holder_text(holder: Option<LockHolder>) -> Seq<char> {
    match holder {
        Some(h) => "'"@ + h.holder@ + "' (pid "@ + dec(h.pid as nat) + ", since unix "@ + dec(
            h.since as nat,
        ) + ")"@,
        None => "an unidentified process"@,
    }
}

/// The text that reports a lock that stayed held.
pub open spec fn contended_text(path: Seq<char>, holder: Option<LockHolder>, timeout_ns: nat)
    -> Seq<char> {
    "rig lock "@ + path + " held by "@ + holder_text(holder) + " for over "@ + span(timeout_ns)
        + "; if that pid is wedged, end it (killing the process releases the flock) \u{2014} deleting the lock file frees nothing"@
}

/// Reports a lock that stayed held: who holds it, and that deleting the file
/// does not help.
pub fn lock_contended(path: &str, holder: Option<LockHolder>, timeout_ns: u128) -> (r: String)
    ensures
        r@ == contended_text(path@, holder, timeout_ns as nat),
{
    let mut out = wrap("rig lock ", path, " held by ");
    match &holder {
        Some(h) => {
            out.append("'");
            out.append(h.holder.as_str());
            out.append("' (pid ");
            push_dec(&mut out, h.pid as u128);
            out.append(", since unix ");
            push_dec(&mut out, h.since as u128);
            out.append(")");
        },
        None => out.append("an unidentified process"),
    }
    assert(out@ =~= "rig lock "@ + path@ + " held by "@ + holder_text(holder));
    out.append(" for over ");
    out.append(show_span(timeout_ns).as_str());
    out.append(
        "; if that pid is wedged, end it (killing the process releases the flock) \u{2014} deleting the lock file frees nothing",
    );
    out
}

/// What a look at the lock file says of the rig.
pub fn flock_status(path: &str, probe: LockProbe) -> (r: Result<FlockStatus, String>)
    ensures
        match probe {
            // Never created: nothing has ever locked this rig.
            LockProbe::Missing => r == Ok::<FlockStatus, String>(FlockStatus::Free),
            LockProbe::Taken => r == Ok::<FlockStatus, String>(FlockStatus::Free),
            LockProbe::Refused(note) => r == Ok::<FlockStatus, String>(FlockStatus::Held(note)),
            LockProbe::Unopenable(e) => r matches Err(text) && text@ == "opening rig lock "@
                + path@ + ": "@ + e@,
            LockProbe::Untriable(e) => r == Err::<FlockStatus, String>(e),
        },
{
    match probe {
        LockProbe::Missing => Ok(FlockStatus::Free),
        LockProbe::Taken => Ok(FlockStatus::Free),
        LockProbe::Refused(note) => Ok(FlockStatus::Held(note)),
        LockProbe::Unopenable(e) => {
            let mut out = wrap("opening rig lock ", path, ": ");
            out.append(e.as_str());
            Err(out)
        },
        LockProbe::Untriable(e) => Err(e),
    }
}

/// `state` has stopped with this text: as a failure, or else as a skip.
pub open spec fn stopped_with(state: Acquisition, fail: bool, text: Seq<char>) -> bool {
    match state {
        Acquisition::Stopped(Acquire::Skip(s)) => !fail && s@ == text,
        Acquisition::Stopped(Acquire::Fail(s)) => fail && s@ == text,
        _ => false,
    }
}

/// Why the config parsed from the file at `path` is not accepted, if it is
/// not.
pub open spec fn refusal(path: String, parsed: Result<RigConfig, String>) -> Option<LoadError> {
    match parsed {
        Err(detail) => Some(LoadError::Parse { path, detail }),
        Ok(config) => match config.problem() {
            Some(problem) => Some(LoadError::Invalid { path, problem }),
            None => None,
        },
    }
}

/// `next` is what follows `state` after `event`. An event that does not
/// belong to the state changes nothing.
pub open spec fn follows(state: Acquisition, event: Progress, next: Acquisition) -> bool {
    match (state, event) {
        (Acquisition::Searching(search), Progress::Looked { is_file, has_parent }) => match search
            .after(is_file, has_parent) {
            Search::Found(place) => next == Acquisition::Loading(place),
            Search::NoRig => stopped_with(next, false, skip_text()),
            Search::Dangling(path) => stopped_with(next, true, dangling_text(path@)),
            going => next == Acquisition::Searching(going),
        },
        (Acquisition::Loading(_), Progress::Unreadable(e)) => stopped_with(next, true, e@),
        (Acquisition::Loading(_), Progress::Loaded { path, parsed, timeout, absolute }) => match (
            parsed,
            refusal(path, parsed),
        ) {
            (_, Some(e)) => stopped_with(next, true, e.text()),
            (Err(_), None) => false,
            (Ok(config), None) => {
                let timeout_s = timeout_of(
                    match timeout {
                        Some(s) => Some(s@),
                        None => None,
                    },
                );
                match config.rig.lease {
                    Some(lease) => next matches Acquisition::ReadingToken {
                        config: c,
                        lease: l,
                        timeout_s: t,
                    } && c == config && l.addr == lease.addr && l.token_file == lease.token_file
                        && t == timeout_s,
                    None => next == (Acquisition::TakingLock {
                        config,
                        path: lock_file_of(config, absolute),
                        timeout_s,
                    }),
                }
            },
        },
        (
            Acquisition::ReadingToken { config, lease, timeout_s },
            Progress::Token { path, read },
        ) => match read {
            Err(e) => stopped_with(next, true, (TokenError::Unreadable { path, e }).text()),
            Ok(text) => if blank(text@) {
                stopped_with(next, true, (TokenError::Empty { path }).text())
            } else {
                next matches Acquisition::TakingLease {
                    config: c,
                    addr,
                    token,
                    timeout_s: t,
                } && c == config && addr == lease.addr && token@ == trimmed(text@) && t
                    == timeout_s
            },
        },
        (Acquisition::TakingLease { config, .. }, Progress::Taken(taken)) => match taken {
            Ok(()) => next == Acquisition::Ready(Rig { config }),
            Err(e) => stopped_with(next, true, "acquiring rig lease: "@ + e@),
        },
        (Acquisition::TakingLock { config, .. }, Progress::Taken(taken)) => match taken {
            Ok(()) => next == Acquisition::Ready(Rig { config }),
            Err(e) => stopped_with(next, true, e@),
        },
        (state, _) => next == state,
    }
}

impl Acquisition {
    /// Takes one step of the acquisition.
    pub fn next(self, event: Progress) -> (r: Acquisition)
        requires
            self matches Acquisition::Searching(Search::CheckAncestor(n)) ==> n < usize::MAX,
        ensures
            follows(self, event, r),
    {
        match (self, event) {
            (Acquisition::Searching(search), Progress::Looked { is_file, has_parent }) => match search
                .next(is_file, has_parent) {
                Search::Found(place) => Acquisition::Loading(place),
                Search::NoRig => {
                    let mut out = wrap("no rig: ", CONFIG_FILE, " not found (set ");
                    out.append(ENV_VAR);
                    out.append(" or create one to run on hardware)");
                    Acquisition::Stopped(Acquire::Skip(out))
                },
                Search::Dangling(path) => Acquisition::Stopped(
                    Acquire::Fail(dangling_message(path.as_str())),
                ),
                going => Acquisition::Searching(going),
            },
            (Acquisition::Loading(_), Progress::Unreadable(e)) => Acquisition::Stopped(
                Acquire::Fail(e),
            ),
            (Acquisition::Loading(_), Progress::Loaded { path, parsed, timeout, absolute }) => {
                let config = match RigConfig::load(path, parsed) {
                    Ok(c) => c,
                    Err(e) => return Acquisition::Stopped(Acquire::Fail(e.to_string())),
                };
                let timeout_s: u64 = match &timeout {
                    Some(s) => lock_timeout(Some(s.as_str())),
                    None => lock_timeout(None),
                };
                let lease = match &config.rig.lease {
                    Some(lease) => Some(
                        LeaseConfig {
                            addr: lease.addr.clone(),
                            token_file: lease.token_file.clone(),
                        },
                    ),
                    None => None,
                };
                match lease {
                    Some(lease) => Acquisition::ReadingToken { config, lease, timeout_s },
                    None => {
                        let path = lock_path(&config, absolute);
                        Acquisition::TakingLock { config, path, timeout_s }
                    },
                }
            },
            (
                Acquisition::ReadingToken { config, lease, timeout_s },
                Progress::Token { path, read },
            ) => match read_token(path.as_str(), read) {
                Ok(token) => Acquisition::TakingLease { config, addr: lease.addr, token, timeout_s },
                Err(e) => Acquisition::Stopped(Acquire::Fail(e.to_string())),
            },
            (Acquisition::TakingLease { config, .. }, Progress::Taken(taken)) => match taken {
                Ok(()) => Acquisition::Ready(Rig { config }),
                Err(e) => Acquisition::Stopped(
                    Acquire::Fail(join("acquiring rig lease: ", e.as_str())),
                ),
            },
            (Acquisition::TakingLock { config, .. }, Progress::Taken(taken)) => match taken {
                Ok(()) => Acquisition::Ready(Rig { config }),
                Err(e) => Acquisition::Stopped(Acquire::Fail(e)),
            },
            (state, _) => state,
        }
    }
}

impl Rig {
    /// Starts an acquisition: with the file that the environment names, or in
    /// the current directory.
    pub fn acquire(env: Option<String>) -> (r: Acquisition)
        ensures
            r == Acquisition::Searching(
                match env {
                    Some(path) => Search::CheckEnv(path),
                    None => Search::CheckAncestor(0),
                },
            ),
    {
        Acquisition::Searching(RigConfig::locate(env))
    }

    /// Where test artifacts go: where the environment says, or
    /// `target/banc-artifacts` next to the rig config.
    pub fn artifacts_dir(env: Option<String>) -> (r: Located)
        ensures
            r == match env {
                Some(path) => Located::AsIs(path),
                None => Located::InTargetDir("banc-artifacts"),
            },
    {
        match env {
            Some(path) => Located::AsIs(path),
            None => Located::InTargetDir("banc-artifacts"),
        }
    }

    /// The token file of the target's remote probe server, if the rig has a
    /// target that names one.
    pub fn target_token(&self) -> (r: Option<&String>)
        ensures
            match self.config.target {
                Some(target) => match target.token_file {
                    Some(path) => r == Some(&path),
                    None => r is None,
                },
                None => r is None,
            },
    {
        match &self.config.target {
            Some(target) => match &target.token_file {
                Some(path) => Some(path),
                None => None,
            },
            None => None,
        }
    }

    /// The configured assistant of that name.
    pub fn assistant(&self, name: &str) -> (r: Result<&AssistantConfig, String>)
        ensures
            match index_of_name(self.config.assistant_names(), name@, 0) {
                Some(i) => r matches Ok(a) && *a == self.config.assistants@[i],
                None => r matches Err(text) && text@ == "no assistant '"@ + name@
                    + "' in rig config"@,
            },
    {
        match self.config.assistant(name) {
            Some(a) => Ok(a),
            None => Err(wrap("no assistant '", name, "' in rig config")),
        }
    }
}

/// Suites skip exactly when no config was found: no other step of an
/// acquisition ends in a skip.
pub proof fn only_a_missing_config_skips(state: Acquisition, event: Progress, next: Acquisition)
    requires
        follows(state, event, next),
        !(state is Stopped),
    ensures
        (next matches Acquisition::Stopped(Acquire::Skip(_))) == (state matches
            Acquisition::Searching(search) && event matches Progress::Looked {
            is_file,
            has_parent,
        } && search.after(is_file, has_parent) == Search::NoRig),
{
}

/// A rig is handed out only once its lease or its lock was taken, and with
/// the config that was loaded: what is configured decides which of the two.
pub proof fn a_ready_rig_is_exclusive(state: Acquisition, event: Progress, next: Acquisition)
    requires
        follows(state, event, next),
        !(state is Ready),
        next is Ready,
    ensures
        event matches Progress::Taken(Ok(_)),
        state is TakingLease || state is TakingLock,
        state matches Acquisition::TakingLease { config, .. } ==> next == Acquisition::Ready(
            Rig { config },
        ),
        state matches Acquisition::TakingLock { config, .. } ==> next == Acquisition::Ready(
            Rig { config },
        ),
{
}

/// A configured lease replaces the lock file entirely.
pub proof fn lease_replaces_the_lock(
    place: Place,
    path: String,
    config: RigConfig,
    timeout: Option<String>,
    absolute: bool,
    next: Acquisition,
)
    requires
        config.problem() is None,
        follows(
            Acquisition::Loading(place),
            Progress::Loaded { path, parsed: Ok(config), timeout, absolute },
            next,
        ),
    ensures
        config.rig.lease is Some <==> next is ReadingToken,
        config.rig.lease is None <==> next is TakingLock,
{
}

/// Whatever config this state holds is sound, and so is a token: the config
/// describes a rig that can be run, the token says something.
pub open spec fn sound(state: Acquisition) -> bool {
    match state {
        Acquisition::ReadingToken { config, .. } => config.problem() is None,
        Acquisition::TakingLease { config, token, .. } => config.problem() is None && !blank(
            token@,
        ),
        Acquisition::TakingLock { config, .. } => config.problem() is None,
        Acquisition::Ready(rig) => rig.config.problem() is None,
        _ => true,
    }
}

/// An acquisition that goes through `states`, by `events`.
pub open spec fn is_acquisition(states: Seq<Acquisition>, events: Seq<Progress>) -> bool {
    &&& states.len() == events.len() + 1
    &&& states[0] is Searching
    &&& forall|i: int|
        0 <= i < events.len() ==> follows(#[trigger] states[i], events[i], states[i + 1])
}

/// No rig is ever acquired with a config that does not describe a rig that
/// can be run, and no lease is asked for with a blank token: whatever is read
/// and parsed on the way, every state of an acquisition is sound.
pub proof fn an_acquired_rig_can_be_run(
    states: Seq<Acquisition>,
    events: Seq<Progress>,
    n: int,
)
    requires
        is_acquisition(states, events),
        0 <= n < states.len(),
    ensures
        sound(states[n]),
        states[n] matches Acquisition::Ready(rig) ==> rig.config.runnable(),
    decreases n,
{
    if n > 0 {
        an_acquired_rig_can_be_run(states, events, n - 1);
        assert(follows(states[n - 1], events[n - 1], states[n]));
        if let (Acquisition::ReadingToken { .. }, Progress::Token { path, read }) = (
            states[n - 1],
            events[n - 1],
        ) {
            if let Ok(text) = read {
                crate::text::lemma_trimmed_says_as_much(text@);
            }
        }
    }
    if let Acquisition::Ready(rig) = states[n] {
        validation_accepts_exactly_runnable(rig.config);
    }
}

/// The timeout is the number that the setting spells, and five minutes where
/// there is none or it spells no number.
pub proof fn the_timeout_is_what_was_set(setting: Option<&str>, r: u64, parsed: Option<u64>)
    requires
        call_ensures(lock_timeout, (setting,), r),
        setting matches Some(s) ==> call_ensures(parse_u64, (s,), parsed),
    ensures
        setting is None ==> r == 300,
        setting is Some && parsed is None ==> r == 300,
        setting is Some && parsed is Some ==> r == parsed->0,
        forall|n: u64| setting is Some && setting->0@ == #[trigger] dec(n as nat) ==> r == n,
{
    if let Some(s) = setting {
        assert forall|n: u64| s@ == #[trigger] dec(n as nat) implies r == n by {
            crate::text::a_number_reads_back(n);
        }
    }
}

/// An absolute path is taken as it is, and any other from the config's
/// directory; the lock file is the configured one, and otherwise `banc.lock`
/// in the target directory.
pub proof fn paths_are_taken_from_the_config(
    path: String,
    absolute: bool,
    r: Located,
    config: RigConfig,
    lock: Located,
    env: Option<String>,
    artifacts: Located,
)
    requires
        call_ensures(resolve, (path, absolute), r),
        call_ensures(lock_path, (&config, absolute), lock),
        call_ensures(Rig::artifacts_dir, (env,), artifacts),
    ensures
        absolute ==> (r matches Located::AsIs(p) && p@ == path@),
        !absolute ==> (r matches Located::InConfigDir(p) && p@ == path@),
        config.rig.lock_file is None ==> (lock matches Located::InTargetDir(name) && name@
            == "banc.lock"@),
        config.rig.lock_file is Some && absolute ==> (lock matches Located::AsIs(p) && p@
            == config.rig.lock_file->0@),
        config.rig.lock_file is Some && !absolute ==> (lock matches Located::InConfigDir(p) && p@
            == config.rig.lock_file->0@),
        env is Some ==> (artifacts matches Located::AsIs(p) && p@ == env->0@),
        env is None ==> (artifacts matches Located::InTargetDir(name) && name@
            == "banc-artifacts"@),
{
}

/// A process contends under the name that it was given, word for word, and
/// otherwise under its host and its pid.
pub proof fn a_contender_has_a_name(
    given: Option<String>,
    host: Option<String>,
    pid: u32,
    r: String,
)
    requires
        call_ensures(holder_identity, (given, host, pid), r),
    ensures
        given is Some ==> r@ == given->0@,
        given is None && host is Some ==> r@ == host->0@ + ":"@ + dec(pid as nat),
        given is None && host is None ==> r@ == "?:"@ + dec(pid as nat),
{
    reveal_strlit("?");
    reveal_strlit(":");
    reveal_strlit("?:");
    assert("?"@ + ":"@ =~= "?:"@);
}

/// The token is the text of its file without the white space around it, and
/// nothing else; a file that holds none, or cannot be read, gives an error
/// that names it.
pub proof fn the_token_is_what_the_file_holds(
    path: &str,
    read: Result<String, String>,
    r: Result<String, TokenError>,
    held: &str,
    bare: String,
    only_white: bool,
)
    requires
        call_ensures(read_token, (path, read), r),
        read matches Ok(text) ==> held@ == text@,
        call_ensures(trim, (held,), bare),
        call_ensures(is_blank, (held,), only_white),
    ensures
        r is Ok == (read is Ok && !only_white),
        r matches Ok(token) ==> token@ == bare@,
        read is Err ==> (r matches Err(TokenError::Unreadable { path: p, e }) && p@ == path@ && e@
            == read->Err_0@),
        read is Ok && only_white ==> (r matches Err(TokenError::Empty { path: p }) && p@ == path@),
{
}

/// What is reported of a token file names it, and says why where that is
/// known.
pub proof fn a_token_report_names_the_file(e: TokenError, r: String)
    requires
        call_ensures(TokenError::to_string, (&e,), r),
    ensures
        match e {
            TokenError::Unreadable { path, e } => r@ == "reading token file "@ + path@ + ": "@
                + e@,
            TokenError::Empty { path } => r@ == "token file "@ + path@ + " is empty"@,
        },
{
}

/// A lock that was taken is held, however late; one that was not is tried
/// again until the deadline, and then given up.
pub proof fn the_lock_is_tried_until_the_deadline(locked: bool, past_deadline: bool, r: LockStep)
    requires
        call_ensures(LockStep::take, (locked, past_deadline), r),
    ensures
        r is Held == locked,
        r is GiveUp == (!locked && past_deadline),
        r is Retry == (!locked && !past_deadline),
{
}

/// A lock that stayed held is reported by its path, its holder's name, pid
/// and time where these are known, and how long it was waited for.
pub proof fn a_held_lock_names_its_holder(
    path: &str,
    holder: Option<LockHolder>,
    timeout_ns: u128,
    r: String,
    waited: String,
)
    requires
        call_ensures(lock_contended, (path, holder, timeout_ns), r),
        call_ensures(show_span, (timeout_ns,), waited),
    ensures
        ({
            let who = match holder {
                Some(h) => "'"@ + h.holder@ + "' (pid "@ + dec(h.pid as nat) + ", since unix "@
                    + dec(h.since as nat) + ")"@,
                None => "an unidentified process"@,
            };
            let head = "rig lock "@ + path@ + " held by "@ + who + " for over "@ + waited@;
            r@.len() > head.len() && r@.take(head.len() as int) == head
        }),
{
    let who = holder_text(holder);
    let head = "rig lock "@ + path@ + " held by "@ + who + " for over "@ + waited@;
    reveal_strlit(
        "; if that pid is wedged, end it (killing the process releases the flock) \u{2014} deleting the lock file frees nothing",
    );
    assert(r@.take(head.len() as int) =~= head);
}

/// A rig is free exactly when its lock file is missing or could be taken, and
/// held, by whoever left a note, exactly when it was refused; anything else
/// is an error, with its reason.
pub proof fn a_refused_lock_is_held(path: &str, probe: LockProbe, r: Result<FlockStatus, String>)
    requires
        call_ensures(flock_status, (path, probe), r),
    ensures
        (r matches Ok(FlockStatus::Free)) == (probe is Missing || probe is Taken),
        (r matches Ok(FlockStatus::Held(_))) == probe is Refused,
        probe matches LockProbe::Refused(note) ==> r == Ok::<FlockStatus, String>(
            FlockStatus::Held(note),
        ),
        probe matches LockProbe::Unopenable(e) ==> (r matches Err(text) && text@
            == "opening rig lock "@ + path@ + ": "@ + e@),
        probe matches LockProbe::Untriable(e) ==> (r matches Err(text) && text@ == e@),
{
}

/// A search for the config goes on as the search does: what is found is
/// loaded, a machine without a rig is skipped, and a setting that points
/// nowhere is a failure that names the path.
pub proof fn an_acquisition_searches_first(
    search: Search,
    is_file: bool,
    has_parent: bool,
    found: Search,
    r: Acquisition,
)
    requires
        call_ensures(Search::next, (search, is_file, has_parent), found),
        call_ensures(
            Acquisition::next,
            (Acquisition::Searching(search), Progress::Looked { is_file, has_parent }),
            r,
        ),
    ensures
        match found {
            Search::Found(place) => r == Acquisition::Loading(place),
            Search::NoRig => r matches Acquisition::Stopped(Acquire::Skip(text)) && mentions(
                text@,
                "banc-rig.toml"@,
            ) && mentions(text@, "BANC_RIG"@),
            Search::Dangling(path) => r matches Acquisition::Stopped(Acquire::Fail(text))
                && mentions(text@, path@),
            going => r == Acquisition::Searching(going),
        },
{
    broadcast use crate::text::group_mentions;

}

/// A config that is found is acted on as it was loaded. One that is not
/// accepted stops the acquisition with its report. With a lease configured,
/// its token is read next, for that server; without one, the lock file is
/// taken. Either waits as long as was set.
pub proof fn an_accepted_config_is_acted_on(
    place: Place,
    path: String,
    parsed: Result<RigConfig, String>,
    timeout: Option<String>,
    absolute: bool,
    loaded: Result<RigConfig, LoadError>,
    report: String,
    setting: &str,
    waits: u64,
    lock: Located,
    r: Acquisition,
)
    requires
        call_ensures(RigConfig::load, (path, parsed), loaded),
        loaded matches Err(e) ==> call_ensures(LoadError::to_string, (&e,), report),
        loaded matches Ok(config) ==> call_ensures(lock_path, (&config, absolute), lock),
        timeout matches Some(s) ==> setting@ == s@ && call_ensures(
            lock_timeout,
            (Some(setting),),
            waits,
        ),
        timeout is None ==> call_ensures(lock_timeout, (None,), waits),
        call_ensures(
            Acquisition::next,
            (Acquisition::Loading(place), Progress::Loaded { path, parsed, timeout, absolute }),
            r,
        ),
    ensures
        match loaded {
            Err(_) => r matches Acquisition::Stopped(Acquire::Fail(text)) && text@ == report@,
            Ok(config) => match config.rig.lease {
                Some(lease) => r matches Acquisition::ReadingToken {
                    config: c,
                    lease: l,
                    timeout_s,
                } && c == config && l.addr@ == lease.addr@ && l.token_file@ == lease.token_file@
                    && timeout_s == waits,
                None => r matches Acquisition::TakingLock { config: c, path: p, timeout_s } && c
                    == config && p == lock && timeout_s == waits,
            },
        },
{
}

/// A config that cannot be read stops the acquisition with the reason.
pub proof fn an_unreadable_config_fails(place: Place, e: String, r: Acquisition)
    requires
        call_ensures(
            Acquisition::next,
            (Acquisition::Loading(place), Progress::Unreadable(e)),
            r,
        ),
    ensures
        r matches Acquisition::Stopped(Acquire::Fail(text)) && text@ == e@,
{
}

/// The lease is asked for at the configured server, with the token that its
/// file gives, and no longer than was set; without a token there is no rig.
pub proof fn the_lease_is_asked_for_with_its_token(
    config: RigConfig,
    lease: LeaseConfig,
    timeout_s: u64,
    path: String,
    shown: &str,
    read: Result<String, String>,
    token: Result<String, TokenError>,
    report: String,
    r: Acquisition,
)
    requires
        shown@ == path@,
        call_ensures(read_token, (shown, read), token),
        token matches Err(e) ==> call_ensures(TokenError::to_string, (&e,), report),
        call_ensures(
            Acquisition::next,
            (
                Acquisition::ReadingToken { config, lease, timeout_s },
                Progress::Token { path, read },
            ),
            r,
        ),
    ensures
        match token {
            Ok(t) => r matches Acquisition::TakingLease {
                config: c,
                addr,
                token: u,
                timeout_s: s,
            } && c == config && addr@ == lease.addr@ && u@ == t@ && s == timeout_s,
            Err(_) => r matches Acquisition::Stopped(Acquire::Fail(text)) && text@ == report@,
        },
{
}

/// What was taken or not decides: the rig is ours, with the config that was
/// loaded, exactly when its lease or lock was taken; otherwise the
/// acquisition fails, and says why.
pub proof fn what_was_taken_decides(
    state: Acquisition,
    config: RigConfig,
    taken: Result<(), String>,
    r: Acquisition,
)
    requires
        state matches Acquisition::TakingLease { config: c, .. } ==> c == config,
        state matches Acquisition::TakingLock { config: c, .. } ==> c == config,
        state is TakingLease || state is TakingLock,
        call_ensures(Acquisition::next, (state, Progress::Taken(taken)), r),
    ensures
        taken is Ok ==> (r matches Acquisition::Ready(rig) && rig.config == config),
        taken matches Err(e) ==> (r matches Acquisition::Stopped(Acquire::Fail(text)) && text@
            == if state is TakingLease {
            "acquiring rig lease: "@ + e@
        } else {
            e@
        }),
{
}

/// An acquisition that has ended stays as it ended, whatever comes in late.
pub proof fn the_end_of_an_acquisition_is_final(state: Acquisition, event: Progress, r: Acquisition)
    requires
        state is Ready || state is Stopped,
        call_ensures(Acquisition::next, (state, event), r),
    ensures
        r == state,
{
}

/// The target's token file is the one that the target names.
pub proof fn the_target_token_is_the_targets(rig: Rig, r: Option<&String>)
    requires
        call_ensures(Rig::target_token, (&rig,), r),
    ensures
        r is Some == (rig.config.target is Some && rig.config.target->0.token_file is Some),
        r matches Some(path) ==> path@ == rig.config.target->0.token_file->0@,
{
}

/// A rig hands out the assistant that its config has under that name, and
/// names the one that it has not.
pub proof fn a_rig_finds_its_assistants(
    rig: Rig,
    name: &str,
    r: Result<&AssistantConfig, String>,
    found: Option<&AssistantConfig>,
)
    requires
        call_ensures(Rig::assistant, (&rig, name), r),
        call_ensures(RigConfig::assistant, (&rig.config, name), found),
    ensures
        r is Ok == found is Some,
        r matches Ok(a) ==> *a == *found->0,
        r matches Err(text) ==> mentions(text@, name@),
{
    broadcast use crate::text::group_mentions;

}

/// An event that does not belong to the step under way changes nothing.
pub proof fn a_stray_event_changes_nothing(state: Acquisition, event: Progress, r: Acquisition)
    requires
        call_ensures(Acquisition::next, (state, event), r),
        state is Searching ==> !(event is Looked),
        state is Loading ==> !(event is Unreadable) && !(event is Loaded),
        state is ReadingToken ==> !(event is Token),
        state is TakingLease || state is TakingLock ==> !(event is Taken),
    ensures
        r == state,
{
}

/// An acquisition starts with the search for the config.
pub proof fn an_acquisition_starts_with_the_search(
    env: Option<String>,
    search: Search,
    r: Acquisition,
)
    requires
        call_ensures(RigConfig::locate, (env,), search),
        call_ensures(Rig::acquire, (env,), r),
    ensures
        r == Acquisition::Searching(search),
{
}

} // verus!
