//! Event-stream assertions: wait for a matching event within a deadline, or
//! assert silence over a window. Silence is a verdict, but loss of
//! observation is not: a source that closes mid-window never passes, for
//! quiet cannot be certified on a channel that nobody watches.
//!
//! The functions here judge one observation at a time; the caller waits for
//! the next and runs the clock.

use crate::text::{mentions, show_span, span, wrap};
use vstd::prelude::*;
use vstd::string::*;

verus! {

/// Why an expectation was not met.
#[derive(Debug)]
pub enum ExpectError {
    /// The deadline, in nanoseconds, elapsed without a matching event.
    Deadline(u128),
    /// The event source closed.
    Closed,
    /// Silence was expected, and this was observed.
    Unexpected(String),
}

/// What came first.
#[derive(Debug)]
pub enum Seen<T> {
    /// An event, and whether it is one that the expectation is about.
    Event { event: T, matches: bool },
    /// The source closed.
    Closed,
    /// The time is up.
    Elapsed,
}

impl<T> Seen<T> {
    /// The verdict of waiting for a match: `None` is to wait on.
    pub open spec fn matching(self, deadline_ns: u128) -> Option<Result<T, ExpectError>> {
        match self {
            Seen::Event { event, matches } => if matches {
                Some(Ok(event))
            } else {
                None
            },
            Seen::Closed => Some(Err(ExpectError::Closed)),
            Seen::Elapsed => Some(Err(ExpectError::Deadline(deadline_ns))),
        }
    }

    /// What was seen leaves a window quiet so far.
    pub open spec fn quiet_so_far(self) -> bool {
        self matches Seen::Event { matches, .. } && !matches
    }
}

/// Judges what was seen while waiting for a matching event, which is handed
/// out; other events are discarded. `None` is to wait on.
pub fn expect_matching<T>(seen: Seen<T>, deadline_ns: u128) -> (r: Option<Result<T, ExpectError>>)
    ensures
        r == seen.matching(deadline_ns),
{
    match seen {
        Seen::Event { event, matches } => if matches {
            Some(Ok(event))
        } else {
            None
        },
        Seen::Closed => Some(Err(ExpectError::Closed)),
        Seen::Elapsed => Some(Err(ExpectError::Deadline(deadline_ns))),
    }
}

/// The verdict of watching for silence: `None` is to watch on.
pub open spec fn quiet_verdict(seen: Seen<String>) -> Option<Result<(), ExpectError>> {
    match seen {
        Seen::Event { event, matches } => if matches {
            Some(Err(ExpectError::Unexpected(event)))
        } else {
            None
        },
        Seen::Closed => Some(Err(ExpectError::Closed)),
        Seen::Elapsed => Some(Ok(())),
    }
}

/// Judges what was seen while watching for silence; an event is given by its
/// description. Only the time running out is a pass.
pub fn expect_quiet(seen: Seen<String>) -> (r: Option<Result<(), ExpectError>>)
    ensures
        match quiet_verdict(seen) {
            None => r is None,
            Some(Ok(_)) => r matches Some(Ok(_)),
            Some(Err(e)) => r == Some(Err::<(), ExpectError>(e)),
        },
{
    match seen {
        Seen::Event { event, matches } => if matches {
            Some(Err(ExpectError::Unexpected(event)))
        } else {
            None
        },
        Seen::Closed => Some(Err(ExpectError::Closed)),
        Seen::Elapsed => Some(Ok(())),
    }
}

impl ExpectError {
    /// The text that reports the error.
    pub open spec fn text(self) -> Seq<char> {
        match self {
            ExpectError::Deadline(ns) => "deadline ("@ + span(ns as nat)
                + ") elapsed without a matching event"@,
            ExpectError::Closed => "event source closed without a matching event"@,
            ExpectError::Unexpected(what) => "expected silence but observed: "@ + what@,
        }
    }

    /// Reports the error.
    pub fn to_string(&self) -> (r: String)
        ensures
            r@ == self.text(),
    {
        match self {
            ExpectError::Deadline(ns) => wrap(
                "deadline (",
                show_span(*ns).as_str(),
                ") elapsed without a matching event",
            ),
            ExpectError::Closed => "event source closed without a matching event".to_owned(),
            ExpectError::Unexpected(what) => crate::text::join(
                "expected silence but observed: ",
                what.as_str(),
            ),
        }
    }
}

/// The verdict on a stream of observations when waiting for a match.
pub open spec fn matching_run<T>(run: Seq<Seen<T>>, deadline_ns: u128) -> Option<
    Result<T, ExpectError>,
>
    decreases run.len(),
{
    if run.len() == 0 {
        None
    } else {
        match run[0].matching(deadline_ns) {
            Some(v) => Some(v),
            None => matching_run(run.skip(1), deadline_ns),
        }
    }
}

/// The verdict on a stream of observations when watching for silence.
pub open spec fn quiet_run(run: Seq<Seen<String>>) -> Option<Result<(), ExpectError>>
    decreases run.len(),
{
    if run.len() == 0 {
        None
    } else {
        match quiet_verdict(run[0]) {
            Some(v) => Some(v),
            None => quiet_run(run.skip(1)),
        }
    }
}

/// A window is certified quiet only if it was watched to its end: everything
/// before the time ran out was an event of no concern. In particular a source
/// that closes is never read as silence.
pub proof fn quiet_only_by_timeout(run: Seq<Seen<String>>)
    ensures
        (quiet_run(run) matches Some(Ok(_))) == (exists|k: int|
            0 <= k < run.len() && (#[trigger] run[k]) is Elapsed && forall|i: int|
                0 <= i < k ==> (#[trigger] run[i]).quiet_so_far()),
    decreases run.len(),
{
    if run.len() > 0 {
        let rest = run.skip(1);
        quiet_only_by_timeout(rest);
        if run[0].quiet_so_far() {
            if exists|k: int|
                0 <= k < rest.len() && (#[trigger] rest[k]) is Elapsed && forall|i: int|
                    0 <= i < k ==> (#[trigger] rest[i]).quiet_so_far() {
                let k = choose|k: int|
                    0 <= k < rest.len() && (#[trigger] rest[k]) is Elapsed && forall|i: int|
                        0 <= i < k ==> (#[trigger] rest[i]).quiet_so_far();
                assert(run[k + 1] is Elapsed);
                assert forall|i: int| 0 <= i < k + 1 implies (
                #[trigger] run[i]).quiet_so_far() by {
                    if i > 0 {
                        assert(rest[i - 1] == run[i]);
                    }
                }
            }
            if exists|k: int|
                0 <= k < run.len() && (#[trigger] run[k]) is Elapsed && forall|i: int|
                    0 <= i < k ==> (#[trigger] run[i]).quiet_so_far() {
                let k = choose|k: int|
                    0 <= k < run.len() && (#[trigger] run[k]) is Elapsed && forall|i: int|
                        0 <= i < k ==> (#[trigger] run[i]).quiet_so_far();
                assert(k > 0);
                assert(rest[k - 1] is Elapsed);
                assert forall|i: int| 0 <= i < k - 1 implies (
                #[trigger] rest[i]).quiet_so_far() by {
                    assert(run[i + 1] == rest[i]);
                }
            }
        } else {
            if run[0] is Elapsed {
                assert(run[0] is Elapsed && forall|i: int|
                    0 <= i < 0 ==> (#[trigger] run[i]).quiet_so_far());
            }
        }
    }
}

/// Waiting hands out the first event that matches, whatever noise came
/// before it.
pub proof fn first_match_is_found<T>(run: Seq<Seen<T>>, deadline_ns: u128, k: int)
    requires
        0 <= k < run.len(),
        run[k] matches Seen::Event { matches, .. } && matches,
        forall|i: int| 0 <= i < k ==> (#[trigger] run[i]).quiet_so_far(),
    ensures
        matching_run(run, deadline_ns) == Some(Ok::<T, ExpectError>(run[k]->event)),
    decreases run.len(),
{
    if k > 0 {
        assert(run[0].quiet_so_far());
        let rest = run.skip(1);
        assert forall|i: int| 0 <= i < k - 1 implies (#[trigger] rest[i]).quiet_so_far() by {
            assert(run[i + 1] == rest[i]);
        }
        first_match_is_found(rest, deadline_ns, k - 1);
    }
}

/// Waiting for a match ends with the first event that matches, which is
/// handed out as it is, with the source closing, or with the deadline; any
/// other event is waited past.
pub proof fn a_match_ends_the_wait<T>(
    seen: Seen<T>,
    deadline_ns: u128,
    r: Option<Result<T, ExpectError>>,
)
    requires
        call_ensures(expect_matching::<T>, (seen, deadline_ns), r),
    ensures
        match seen {
            Seen::Event { event, matches: true } => r == Some(Ok::<T, ExpectError>(event)),
            Seen::Event { event, matches: false } => r is None,
            Seen::Closed => r matches Some(Err(ExpectError::Closed)),
            Seen::Elapsed => r matches Some(Err(ExpectError::Deadline(ns))) && ns == deadline_ns,
        },
{
}

/// Watching for silence passes on nothing but the time running out: a
/// matching event fails it, by its description, and so does a source that
/// closes; any other event is watched past.
pub proof fn silence_is_watched_to_its_end(
    seen: Seen<String>,
    r: Option<Result<(), ExpectError>>,
)
    requires
        call_ensures(expect_quiet, (seen,), r),
    ensures
        match seen {
            Seen::Event { event, matches: true } => r matches Some(
                Err(ExpectError::Unexpected(what)),
            ) && what@ == event@,
            Seen::Event { event, matches: false } => r is None,
            Seen::Closed => r matches Some(Err(ExpectError::Closed)),
            Seen::Elapsed => r matches Some(Ok(_)),
        },
{
}

/// A wait that ends without a match ends with what came before any did: the
/// source closing, or the deadline.
pub proof fn a_wait_ends_with_what_came_first<T>(run: Seq<Seen<T>>, deadline_ns: u128, k: int)
    requires
        0 <= k < run.len(),
        run[k] is Closed || run[k] is Elapsed,
        forall|i: int|
            0 <= i < k ==> ((#[trigger] run[i]) matches Seen::Event { matches, .. } && !matches),
    ensures
        run[k] is Closed ==> matching_run(run, deadline_ns) == Some(
            Err::<T, ExpectError>(ExpectError::Closed),
        ),
        run[k] is Elapsed ==> matching_run(run, deadline_ns) == Some(
            Err::<T, ExpectError>(ExpectError::Deadline(deadline_ns)),
        ),
    decreases run.len(),
{
    if k > 0 {
        assert(run[0] matches Seen::Event { matches, .. } && !matches);
        let rest = run.skip(1);
        assert forall|i: int| 0 <= i < k - 1 implies ((#[trigger] rest[i]) matches Seen::Event {
            matches,
            ..
        } && !matches) by {
            assert(run[i + 1] == rest[i]);
        }
        a_wait_ends_with_what_came_first(rest, deadline_ns, k - 1);
    }
}

/// What is reported says how long was waited, or what was observed.
pub proof fn an_expectation_reports_what_was_seen(e: ExpectError, r: String, waited: String)
    requires
        call_ensures(ExpectError::to_string, (&e,), r),
        e matches ExpectError::Deadline(ns) ==> call_ensures(show_span, (ns,), waited),
    ensures
        match e {
            ExpectError::Deadline(_) => mentions(r@, waited@),
            ExpectError::Closed => mentions(r@, "closed"@),
            ExpectError::Unexpected(what) => mentions(r@, what@),
        },
{
    broadcast use crate::text::group_mentions;

    reveal_strlit("event source closed without a matching event");
    reveal_strlit("event source ");
    reveal_strlit("closed");
    reveal_strlit(" without a matching event");
    assert("event source closed without a matching event"@ =~= "event source "@ + "closed"@
        + " without a matching event"@);
}

} // verus!
