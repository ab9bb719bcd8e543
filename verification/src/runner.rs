//! What the runner decides: whether a trial runs, is ignored or fails, how
//! often it is attempted, and what it reports.

use crate::evidence::Evidence;
use crate::results::{Outcome, TestRecord, SCHEMA};
use crate::rig::Acquire;
use crate::text::{join, mentions};
use vstd::prelude::*;
use vstd::string::*;

verus! {

/// Lines of evidence shown under a failure.
pub const TAIL_LINES: usize = 40;

/// A test of a suite.
#[derive(Debug)]
pub struct BancTest {
    pub name: String,
    /// How often it may be tried.
    pub attempts: u32,
}

/// Outcome of the once-per-process rig acquisition, shared across trials.
#[derive(Debug)]
pub enum RigState {
    Ready,
    Skip(String),
    Fail(String),
}

/// What to do with a trial.
#[derive(Debug)]
pub enum TrialStart {
    Run,
    /// Report it as ignored, with this reason: never passed, never failed.
    Ignore(String),
    Fail(String),
}

/// What to do after an attempt.
#[derive(Debug)]
pub enum AfterAttempt {
    Passed,
    Again,
    Failed(Option<String>),
}

impl BancTest {
    /// A test that is tried once.
    pub fn new(name: String) -> (r: Self)
        ensures
            r.name == name,
            r.attempts == 1,
    {
        BancTest { name, attempts: 1 }
    }

    /// What follows attempt number `attempt`.
    pub open spec fn following(self, attempt: int, result: Result<(), Option<String>>)
        -> AfterAttempt {
        match result {
            Ok(_) => AfterAttempt::Passed,
            Err(m) => if attempt < self.attempts {
                AfterAttempt::Again
            } else {
                AfterAttempt::Failed(m)
            },
        }
    }

    /// What to do after attempt number `attempt`, counted from 1, which ended
    /// with `result`.
    pub fn after_attempt(&self, attempt: u32, result: Result<(), Option<String>>) -> (r:
        AfterAttempt)
        ensures
            r == self.following(attempt as int, result),
    {
        match result {
            Ok(_) => AfterAttempt::Passed,
            Err(m) => if attempt < self.attempts {
                AfterAttempt::Again
            } else {
                AfterAttempt::Failed(m)
            },
        }
    }
}

impl RigState {
    /// What an acquisition leaves behind.
    pub open spec fn after(acquired: Result<(), Acquire>) -> RigState {
        match acquired {
            Ok(_) => RigState::Ready,
            Err(Acquire::Skip(reason)) => RigState::Skip(reason),
            Err(Acquire::Fail(e)) => RigState::Fail(e),
        }
    }

    /// `start` is what a trial does in this state.
    pub open spec fn starts(self, start: TrialStart) -> bool {
        match self {
            RigState::Ready => start is Run,
            RigState::Skip(reason) => start == TrialStart::Ignore(reason),
            RigState::Fail(e) => start matches TrialStart::Fail(text) && text@
                == "rig unavailable: "@ + e@,
        }
    }

    /// The state that every trial sees after an acquisition.
    pub fn of(acquired: Result<(), Acquire>) -> (r: RigState)
        ensures
            r == RigState::after(acquired),
    {
        match acquired {
            Ok(_) => RigState::Ready,
            Err(Acquire::Skip(reason)) => RigState::Skip(reason),
            Err(Acquire::Fail(e)) => RigState::Fail(e),
        }
    }

    /// What to do with a trial.
    pub fn run(&self) -> (r: TrialStart)
        ensures
            self.starts(r),
    {
        match self {
            RigState::Ready => TrialStart::Run,
            RigState::Skip(reason) => TrialStart::Ignore(reason.clone()),
            RigState::Fail(e) => TrialStart::Fail(join("rig unavailable: ", e.as_str())),
        }
    }
}

/// The bare text of a failure.
pub open spec fn bare(message: Option<Seq<char>>) -> Seq<char> {
    match message {
        Some(m) => m,
        None => "test failed"@,
    }
}

/// The bare text of a failure, for records: without the evidence that people
/// get to see.
pub fn bare_message(message: Option<String>) -> (r: String)
    ensures
        r@ == bare(
            match message {
                Some(m) => Some(m@),
                None => None,
            },
        ),
{
    match message {
        Some(m) => m,
        None => "test failed".to_owned(),
    }
}

/// The text of a failure with its evidence, if there is any.
pub open spec fn failure_text(
    message: Option<Seq<char>>,
    evidence: Evidence,
    persisted: Result<String, String>,
) -> Seq<char> {
    if evidence@.entries.len() == 0 {
        bare(message)
    } else {
        match persisted {
            Ok(path) => bare(message) + "\n--- evidence (tail) ---\n"@ + evidence@.tail(
                TAIL_LINES as nat,
            ) + "full log: "@ + path@,
            Err(e) => bare(message) + "\n--- evidence (tail; persist failed: "@ + e@ + ") ---\n"@
                + evidence@.tail(TAIL_LINES as nat),
        }
    }
}

/// Reports a failure, with the tail of the evidence and where the whole log
/// was written, or why it could not be. `persisted` matters only when there
/// is evidence.
pub fn failure_message(
    message: Option<String>,
    evidence: &Evidence,
    persisted: Result<String, String>,
) -> (r: String)
    ensures
        r@ == failure_text(
            match message {
                Some(m) => Some(m@),
                None => None,
            },
            *evidence,
            persisted,
        ),
{
    let mut out = bare_message(message);
    if !evidence.is_empty() {
        match persisted {
            Ok(path) => {
                out.append("\n--- evidence (tail) ---\n");
                out.append(evidence.tail(TAIL_LINES).as_str());
                out.append("full log: ");
                out.append(path.as_str());
            },
            Err(e) => {
                out.append("\n--- evidence (tail; persist failed: ");
                out.append(e.as_str());
                out.append(") ---\n");
                out.append(evidence.tail(TAIL_LINES).as_str());
            },
        }
    }
    out
}

/// The record of a trial that did not run for want of a rig.
pub fn skipped_record(suite: &str, test: &str, reason: String, finished_at: u64) -> (r: TestRecord)
    ensures
        r.schema == SCHEMA,
        r.suite@ == suite@,
        r.test@ == test@,
        r.outcome == Outcome::Skipped,
        r.reason == Some(reason),
        r.attempts == 1,
        r.duration_ms == 0,
        r.finished_at == finished_at,
        r.evidence is None,
{
    let mut record = TestRecord::new(suite, test, Outcome::Skipped, finished_at);
    record.reason = Some(reason);
    record
}

/// The record of a trial that ran, or failed for want of a usable rig: its
/// bare failure message, and a link to its evidence file.
pub fn finished_record(
    suite: &str,
    test: &str,
    failure: Option<String>,
    attempts: u32,
    duration_ms: u64,
    finished_at: u64,
    evidence: Option<String>,
) -> (r: TestRecord)
    ensures
        r.schema == SCHEMA,
        r.suite@ == suite@,
        r.test@ == test@,
        r.outcome == (if failure is Some {
            Outcome::Failed
        } else {
            Outcome::Passed
        }),
        r.reason == failure,
        r.attempts == attempts,
        r.duration_ms == duration_ms,
        r.finished_at == finished_at,
        r.evidence == evidence,
{
    let outcome = if failure.is_some() {
        Outcome::Failed
    } else {
        Outcome::Passed
    };
    let mut record = TestRecord::new(suite, test, outcome, finished_at);
    record.reason = failure;
    record.attempts = attempts;
    record.duration_ms = duration_ms;
    record.evidence = evidence;
    record
}

/// How a trial ends whose attempts end as `results` says, from number `n` on:
/// what follows its last attempt, and the number of that.
pub open spec fn trial(test: BancTest, results: Seq<Result<(), Option<String>>>, n: int) -> (
    AfterAttempt,
    int,
)
    decreases results.len() - n,
{
    match test.following(n, results[n - 1]) {
        AfterAttempt::Again => if 1 <= n < results.len() {
            trial(test, results, n + 1)
        } else {
            (AfterAttempt::Again, n)
        },
        end => (end, n),
    }
}

/// A trial passes exactly when one of the attempts it is allowed passes, fails
/// exactly when none does, and never uses more than it is allowed.
pub proof fn retries_are_bounded(test: BancTest, results: Seq<Result<(), Option<String>>>)
    requires
        test.attempts >= 1,
        results.len() >= test.attempts,
    ensures
        trial(test, results, 1).0 is Passed == (exists|i: int|
            0 <= i < test.attempts && (#[trigger] results[i]) is Ok),
        trial(test, results, 1).0 is Failed == (forall|i: int|
            0 <= i < test.attempts ==> (#[trigger] results[i]) is Err),
        1 <= trial(test, results, 1).1 <= test.attempts,
{
    lemma_trial(test, results, 1);
}

proof fn lemma_trial(test: BancTest, results: Seq<Result<(), Option<String>>>, n: int)
    requires
        1 <= n <= test.attempts,
        results.len() >= test.attempts,
    ensures
        trial(test, results, n).0 is Passed == (exists|i: int|
            n - 1 <= i < test.attempts && (#[trigger] results[i]) is Ok),
        trial(test, results, n).0 is Failed == (forall|i: int|
            n - 1 <= i < test.attempts ==> (#[trigger] results[i]) is Err),
        n <= trial(test, results, n).1 <= test.attempts,
    decreases test.attempts - n,
{
    if results[n - 1] is Err && n < test.attempts {
        lemma_trial(test, results, n + 1);
    }
}

/// A machine without a rig reports its trials as ignored, and only such a
/// machine does: on a broken rig they fail, and they run only on a rig that
/// was acquired.
pub proof fn off_rig_is_ignored(acquired: Result<(), Acquire>, start: TrialStart)
    requires
        RigState::after(acquired).starts(start),
    ensures
        start is Ignore == (acquired matches Err(Acquire::Skip(_))),
        start is Fail == (acquired matches Err(Acquire::Fail(_))),
        start is Run == (acquired is Ok),
{
}

/// An attempt that passed ends the trial as passed; one that failed is
/// followed by another exactly while fewer were made than are allowed, and
/// otherwise ends the trial as failed, with its own message.
pub proof fn an_attempt_is_followed_up(
    test: BancTest,
    attempt: u32,
    result: Result<(), Option<String>>,
    r: AfterAttempt,
)
    requires
        call_ensures(BancTest::after_attempt, (&test, attempt, result), r),
    ensures
        r is Passed == result is Ok,
        r is Again == (result is Err && attempt < test.attempts),
        r matches AfterAttempt::Failed(m) ==> result == Err::<(), Option<String>>(m),
{
}

/// A test is tried once, unless it says otherwise.
pub proof fn a_test_is_tried_once(name: String, r: BancTest)
    requires
        call_ensures(BancTest::new, (name,), r),
    ensures
        r.name@ == name@,
        r.attempts == 1,
{
}

/// What came of the acquisition decides over every trial: on a rig it runs,
/// without one it is ignored, with the reason as it was given, and on a
/// broken one it fails, with the reason in its message.
pub proof fn the_acquisition_decides_over_trials(
    acquired: Result<(), Acquire>,
    state: RigState,
    r: TrialStart,
)
    requires
        call_ensures(RigState::of, (acquired,), state),
        call_ensures(RigState::run, (&state,), r),
    ensures
        match acquired {
            Ok(_) => r is Run,
            Err(Acquire::Skip(reason)) => r matches TrialStart::Ignore(text) && text@ == reason@,
            Err(Acquire::Fail(e)) => r matches TrialStart::Fail(text) && mentions(text@, e@),
        },
{
    broadcast use crate::text::group_mentions;

}

/// A failure is reported by its own message first. Where there is evidence,
/// the last forty lines of it follow, and where the whole log is, or why it
/// is nowhere; where there is none, nothing does.
pub proof fn a_failure_shows_its_evidence(
    message: Option<String>,
    evidence: Evidence,
    persisted: Result<String, String>,
    r: String,
    bare: String,
    tail: String,
    empty: bool,
)
    requires
        call_ensures(failure_message, (message, &evidence, persisted), r),
        call_ensures(bare_message, (message,), bare),
        call_ensures(Evidence::tail, (&evidence, 40), tail),
        call_ensures(Evidence::is_empty, (&evidence,), empty),
    ensures
        message is Some ==> bare@ == message->0@,
        message is None ==> bare@ == "test failed"@,
        r@.len() >= bare@.len(),
        r@.take(bare@.len() as int) == bare@,
        empty ==> r@ == bare@,
        !empty ==> mentions(r@, tail@),
        !empty ==> (persisted matches Ok(path) ==> mentions(r@, "full log: "@ + path@)),
        !empty ==> (persisted matches Err(e) ==> mentions(r@, e@)),
{
    broadcast use crate::text::group_mentions;

    assert(r@.take(bare@.len() as int) =~= bare@);
    if let Ok(path) = persisted {
        if !empty {
            let head = bare@ + "\n--- evidence (tail) ---\n"@ + tail@;
            assert(r@ =~= head + ("full log: "@ + path@));
        }
    }
}

/// A trial that did not run for want of a rig is on record as skipped, with
/// the reason, and never as passed or failed.
pub proof fn a_skipped_trial_is_on_record(
    suite: &str,
    test: &str,
    reason: String,
    finished_at: u64,
    r: TestRecord,
)
    requires
        call_ensures(skipped_record, (suite, test, reason, finished_at), r),
    ensures
        r.outcome is Skipped,
        r.reason is Some && r.reason->0@ == reason@,
        r.suite@ == suite@,
        r.test@ == test@,
        r.finished_at == finished_at,
        r.schema == 1,
        r.attempts == 1,
        r.duration_ms == 0,
        r.evidence is None,
{
}

/// A trial that ran is on record as failed exactly when there is a failure,
/// which is its reason, and otherwise as passed; what it took is on record as
/// it was.
pub proof fn a_finished_trial_is_on_record(
    suite: &str,
    test: &str,
    failure: Option<String>,
    attempts: u32,
    duration_ms: u64,
    finished_at: u64,
    evidence: Option<String>,
    r: TestRecord,
)
    requires
        call_ensures(
            finished_record,
            (suite, test, failure, attempts, duration_ms, finished_at, evidence),
            r,
        ),
    ensures
        r.outcome is Failed == failure is Some,
        r.outcome is Passed == failure is None,
        r.reason == failure,
        r.suite@ == suite@,
        r.test@ == test@,
        r.attempts == attempts,
        r.duration_ms == duration_ms,
        r.finished_at == finished_at,
        r.evidence == evidence,
        r.schema == 1,
{
}

} // verus!
