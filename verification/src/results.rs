//! Machine-readable per-test results: one record per executed trial.

use crate::text::{all_hex, chars_of, hex_from, string_of};
use vstd::prelude::*;

verus! {

/// Bumped when the shape of [`TestRecord`] changes incompatibly, so a
/// consumer can refuse records it does not understand instead of misreading
/// them.
pub const SCHEMA: u32 = 1;

#[derive(Debug, Clone, Copy, PartialEq, Eq, Structural)]
pub enum Outcome {
    Passed,
    Failed,
    /// No rig on this machine; the record's reason says why. Reported so a
    /// consumer can tell "ran and passed" from "did not run".
    Skipped,
}

#[derive(Debug, Clone)]
pub struct TestRecord {
    pub schema: u32,
    /// Test-binary stem, the suite identity a caller selected.
    pub suite: String,
    pub test: String,
    pub outcome: Outcome,
    /// Failure message or skip reason. Bare, without the evidence tail the
    /// human-facing failure carries; the evidence file is linked instead.
    pub reason: Option<String>,
    /// Attempts consumed (1 unless the test was declared with retries).
    pub attempts: u32,
    pub duration_ms: u64,
    /// Unix seconds when the trial finished.
    pub finished_at: u64,
    pub evidence: Option<String>,
}

impl TestRecord {
    /// A record of a trial that finished at `finished_at`, after one attempt,
    /// with no reason and no evidence file.
    pub fn new(suite: &str, test: &str, outcome: Outcome, finished_at: u64) -> (r: Self)
        ensures
            r.schema == SCHEMA,
            r.suite@ == suite@,
            r.test@ == test@,
            r.outcome == outcome,
            r.reason is None,
            r.attempts == 1,
            r.duration_ms == 0,
            r.finished_at == finished_at,
            r.evidence is None,
    {
        TestRecord {
            schema: SCHEMA,
            suite: suite.to_owned(),
            test: test.to_owned(),
            outcome,
            reason: None,
            attempts: 1,
            duration_ms: 0,
            finished_at,
            evidence: None,
        }
    }
}

/// `stem` ends in a dash and sixteen hexadecimal digits.
pub open spec fn has_hash(stem: Seq<char>) -> bool {
    stem.len() >= 17 && stem[stem.len() - 17] == '-' && all_hex(stem.skip(stem.len() - 16))
}

/// The suite that a test binary of that file stem belongs to.
pub open spec fn suite_of(stem: Seq<char>) -> Seq<char> {
    if has_hash(stem) {
        stem.take(stem.len() - 17)
    } else {
        stem
    }
}

/// The suite name: the test binary's file stem without the trailing
/// `-<hash>` that the build adds; "unknown" when there is no stem.
pub fn suite_name(stem: Option<&str>) -> (r: String)
    ensures
        r@ == match stem {
            Some(s) => suite_of(s@),
            None => "unknown"@,
        },
{
    match stem {
        None => "unknown".to_owned(),
        Some(s) => {
            let chars = chars_of(s);
            let n: usize = chars.len();
            if n >= 17 && chars[n - 17] == '-' && hex_from(&chars, n - 16) {
                let r = string_of(&chars, 0, n - 17);
                assert(r@ =~= s@.take(s@.len() - 17));
                r
            } else {
                s.to_owned()
            }
        },
    }
}

/// The suite name does not depend on the hash that a build appends.
pub proof fn suite_survives_rebuilds(name: Seq<char>, hash: Seq<char>)
    requires
        hash.len() == 16,
        all_hex(hash),
    ensures
        suite_of(name + seq!['-'] + hash) == name,
{
    let stem = name + seq!['-'] + hash;
    assert(stem.skip(stem.len() - 16) =~= hash);
    assert(stem.take(stem.len() - 17) =~= name);
}

/// A suite is named by its binary's file stem, without a dash and sixteen
/// hexadecimal digits at the end if these are there, and whole if they are
/// not.
pub proof fn a_suite_is_named_by_its_stem(stem: Option<&str>, r: String)
    requires
        call_ensures(suite_name, (stem,), r),
    ensures
        stem is None ==> r@ == "unknown"@,
        stem matches Some(s) ==> {
            let n = s@.len() - 17;
            let hashed = n >= 0 && s@[n] == '-' && forall|i: int|
                n < i < s@.len() ==> ('0' <= #[trigger] s@[i] <= '9') || ('a' <= s@[i] <= 'f') || (
                'A' <= s@[i] <= 'F');
            &&& hashed ==> r@ == s@.take(n)
            &&& !hashed ==> r@ == s@
        },
{
    if let Some(s) = stem {
        let n = s@.len() - 17;
        if n >= 0 && s@[n] == '-' {
            let t = s@.skip(s@.len() - 16);
            if all_hex(t) {
                assert forall|i: int| n < i < s@.len() implies ('0' <= #[trigger] s@[i] <= '9') || (
                'a' <= s@[i] <= 'f') || ('A' <= s@[i] <= 'F') by {
                    assert(crate::text::is_hex_digit(t[i - n - 1]));
                }
            } else {
                let k = choose|k: int|
                    0 <= k < t.len() && !crate::text::is_hex_digit(#[trigger] t[k]);
                assert(s@[k + n + 1] == t[k]);
            }
        }
    }
}

/// A record is of the trial that it is made for, after one attempt, with
/// nothing else on it yet.
pub proof fn a_record_is_of_its_trial(
    suite: &str,
    test: &str,
    outcome: Outcome,
    finished_at: u64,
    r: TestRecord,
)
    requires
        call_ensures(TestRecord::new, (suite, test, outcome, finished_at), r),
    ensures
        r.suite@ == suite@,
        r.test@ == test@,
        r.outcome == outcome,
        r.finished_at == finished_at,
        r.schema == 1,
        r.attempts == 1,
        r.reason is None,
        r.evidence is None,
        r.duration_ms == 0,
{
}

} // verus!
