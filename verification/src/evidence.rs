//! Per-test evidence: everything observed while a test ran, attached to the
//! failure when it fails and discarded when it passes.

use crate::text::{chars_of, dec, join, mentions, millis, millis_column, pad_left, push_dec};
use std::collections::VecDeque;
use vstd::prelude::*;
use vstd::string::*;

verus! {

/// Cap on retained evidence entries. Past this the oldest entries are dropped
/// (the tail is what a failure shows anyway) and the drops are counted, so
/// the record stays honest about being truncated.
pub const MAX_ENTRIES: usize = 50_000;

/// One recorded line, with the host time since the test started.
pub struct Entry {
    pub at_us: u128,
    pub source: &'static str,
    pub line: String,
}

/// What was recorded while a test ran.
pub struct Evidence {
    pub test: String,
    pub entries: VecDeque<Entry>,
    pub dropped: u64,
}

/// The contents of an [`Entry`].
pub struct Noted {
    pub at_us: nat,
    pub source: Seq<char>,
    pub line: Seq<char>,
}

/// The contents of an [`Evidence`].
pub struct Log {
    pub test: Seq<char>,
    pub entries: Seq<Noted>,
    pub dropped: nat,
}

impl View for Entry {
    type V = Noted;

    open spec fn view(&self) -> Noted {
        Noted { at_us: self.at_us as nat, source: self.source@, line: self.line@ }
    }
}

impl View for Evidence {
    type V = Log;

    open spec fn view(&self) -> Log {
        Log {
            test: self.test@,
            entries: self.entries@.map_values(|e: Entry| e@),
            dropped: self.dropped as nat,
        }
    }
}

impl Noted {
    /// The entry as one line of text.
    pub open spec fn text(self) -> Seq<char> {
        "["@ + pad_left(millis(self.at_us), 10) + "ms "@ + self.source + "] "@ + self.line
            + "\n"@
    }
}

/// The entries as lines of text, in order.
pub open spec fn lines(entries: Seq<Noted>) -> Seq<char>
    decreases entries.len(),
{
    if entries.len() == 0 {
        seq![]
    } else {
        lines(entries.drop_last()) + entries.last().text()
    }
}

impl Log {
    /// A log in which nothing was recorded yet.
    pub open spec fn fresh(test: Seq<char>) -> Log {
        Log { test, entries: seq![], dropped: 0 }
    }

    /// The log with one more entry: past the cap, the oldest makes room.
    pub open spec fn with(self, e: Noted) -> Log {
        if self.entries.len() >= MAX_ENTRIES {
            Log {
                entries: self.entries.skip(1).push(e),
                dropped: self.dropped + 1,
                ..self
            }
        } else {
            Log { entries: self.entries.push(e), ..self }
        }
    }

    /// The last `n` entries as text. When that is all of them and earlier
    /// ones were dropped, a first line says how many.
    pub open spec fn tail(self, n: nat) -> Seq<char> {
        if n < self.entries.len() {
            lines(self.entries.skip(self.entries.len() - n))
        } else if self.dropped > 0 {
            "[... "@ + dec(self.dropped) + " earlier entries dropped ...]\n"@ + lines(
                self.entries,
            )
        } else {
            lines(self.entries)
        }
    }

    /// The whole log as text. When earlier entries were dropped, a first line
    /// says how many.
    pub open spec fn whole(self) -> Seq<char> {
        if self.dropped > 0 {
            "[... "@ + dec(self.dropped) + " earlier entries dropped (evidence cap) ...]\n"@
                + lines(self.entries)
        } else {
            lines(self.entries)
        }
    }
}

impl Evidence {
    /// Evidence of a test that is about to run.
    pub fn new(test: &str) -> (r: Self)
        ensures
            r@ == Log::fresh(test@),
    {
        let r = Evidence { test: test.to_owned(), entries: VecDeque::new(), dropped: 0 };
        assert(r@.entries =~= Seq::<Noted>::empty());
        r
    }

    /// Records one line from a named source ("defmt", "assistant:a0", ...),
    /// `at_us` microseconds after the test started. That time is for
    /// correlating the narrative, never for timing assertions.
    pub fn record(&mut self, source: &'static str, line: String, at_us: u128)
        requires
            old(self).dropped < u64::MAX,
        ensures
            final(self)@ == old(self)@.with(
                Noted { at_us: at_us as nat, source: source@, line: line@ },
            ),
    {
        let ghost before = self@;
        if self.entries.len() >= MAX_ENTRIES {
            self.entries.pop_front();
            self.dropped += 1;
            assert(self@.entries =~= before.entries.skip(1));
        }
        let ghost kept = self@;
        self.entries.push_back(Entry { at_us, source, line });
        assert(self@.entries =~= kept.entries.push(
            Noted { at_us: at_us as nat, source: source@, line: line@ },
        ));
    }

    /// Whether nothing was recorded.
    pub fn is_empty(&self) -> (r: bool)
        ensures
            r == (self@.entries.len() == 0),
    {
        self.entries.len() == 0
    }

    /// Appends the entries from index `from` on as text.
    fn push_lines(&self, out: &mut String, from: usize)
        requires
            from <= self.entries@.len(),
        ensures
            final(out)@ == old(out)@ + lines(self@.entries.skip(from as int)),
    {
        let ghost start = out@;
        let mut i: usize = from;
        assert(self@.entries.subrange(from as int, from as int) =~= Seq::<Noted>::empty());
        assert(out@ =~= start + lines(self@.entries.subrange(from as int, from as int)));
        while i < self.entries.len()
            invariant
                from <= i <= self.entries@.len(),
                out@ == start + lines(self@.entries.subrange(from as int, i as int)),
            decreases self.entries.len() - i,
        {
            let e = &self.entries[i];
            let ghost before = out@;
            out.append("[");
            out.append(millis_column(e.at_us).as_str());
            out.append("ms ");
            out.append(e.source);
            out.append("] ");
            out.append(e.line.as_str());
            out.append("\n");
            proof {
                let part = self@.entries.subrange(from as int, i + 1);
                assert(part.drop_last() =~= self@.entries.subrange(from as int, i as int));
                assert(part.last() == e@);
                assert(out@ =~= before + e@.text());
                assert(out@ =~= start + lines(part));
            }
            i += 1;
        }
        assert(self@.entries.subrange(from as int, i as int) =~= self@.entries.skip(from as int));
    }

    /// Last `n` lines, formatted for inline display under a failure.
    pub fn tail(&self, n: usize) -> (r: String)
        ensures
            r@ == self@.tail(n as nat),
    {
        let len: usize = self.entries.len();
        let skip: usize = if len > n { len - n } else { 0 };
        let mut out = String::new();
        if self.dropped > 0 && skip == 0 {
            out.append("[... ");
            push_dec(&mut out, self.dropped as u128);
            out.append(" earlier entries dropped ...]\n");
        }
        self.push_lines(&mut out, skip);
        proof {
            if skip == 0 {
                assert(self@.entries.skip(0) =~= self@.entries);
            }
            assert(out@ =~= self@.tail(n as nat));
        }
        out
    }

    /// The retained log as text. If the entry cap was hit the header records
    /// how many earlier lines were dropped, so the file never reads as
    /// complete when it is not.
    pub fn persist(&self) -> (r: (String, String))
        ensures
            r.0@ == log_name(self@.test),
            r.1@ == self@.whole(),
    {
        let name = join(sanitize(self.test.as_str()).as_str(), ".evidence.log");
        let mut out = String::new();
        if self.dropped > 0 {
            out.append("[... ");
            push_dec(&mut out, self.dropped as u128);
            out.append(" earlier entries dropped (evidence cap) ...]\n");
        }
        self.push_lines(&mut out, 0);
        assert(self@.entries.skip(0) =~= self@.entries);
        assert(out@ =~= self@.whole());
        (name, out)
    }
}

/// `c` may stand in a file name as it is.
pub open spec fn is_safe(c: char) -> bool {
    ('0' <= c <= '9') || ('a' <= c <= 'z') || ('A' <= c <= 'Z') || c == '-' || c == '_'
}

/// `test` with every other character turned into an underscore.
pub open spec fn sanitized(test: Seq<char>) -> Seq<char> {
    test.map_values(|c: char| if is_safe(c) { c } else { '_' })
}

/// The name of the file that a test's log goes to.
pub open spec fn log_name(test: Seq<char>) -> Seq<char> {
    sanitized(test) + ".evidence.log"@
}

/// Makes a test path safe as a single filename component. Only ASCII
/// alphanumerics, `-`, and `_` pass through; everything else collapses to
/// `_`, so an externally assembled test name cannot traverse directories.
pub fn sanitize(test: &str) -> (r: String)
    ensures
        r@ == sanitized(test@),
{
    let chars = chars_of(test);
    let mut out = String::new();
    let mut i: usize = 0;
    while i < chars.len()
        invariant
            chars@ == test@,
            i <= chars@.len(),
            out@ == sanitized(test@).take(i as int),
        decreases chars.len() - i,
    {
        let c = chars[i];
        let safe = ('0' <= c && c <= '9') || ('a' <= c && c <= 'z') || ('A' <= c && c <= 'Z') || c
            == '-' || c == '_';
        out.push(
            if safe {
                c
            } else {
                '_'
            },
        );
        assert(sanitized(test@).take(i + 1) =~= sanitized(test@).take(i as int).push(
            sanitized(test@)[i as int],
        ));
        i += 1;
    }
    assert(sanitized(test@).take(i as int) =~= sanitized(test@));
    out
}

/// Sanitizing keeps the length, leaves no path separator and no dot, and
/// changes nothing the second time.
pub proof fn sanitized_name_cannot_traverse(test: Seq<char>)
    ensures
        sanitized(test).len() == test.len(),
        forall|i: int| 0 <= i < test.len() ==> is_safe(#[trigger] sanitized(test)[i]),
        !sanitized(test).contains('/'),
        !sanitized(test).contains('\\'),
        !sanitized(test).contains('.'),
        !sanitized(test).contains(':'),
        sanitized(sanitized(test)) == sanitized(test),
{
    assert(sanitized(sanitized(test)) =~= sanitized(test));
}

/// The log of a test after recording `seen`.
pub open spec fn recorded(test: Seq<char>, seen: Seq<Noted>) -> Log
    decreases seen.len(),
{
    if seen.len() == 0 {
        Log::fresh(test)
    } else {
        recorded(test, seen.drop_last()).with(seen.last())
    }
}

/// Whatever is recorded, the log holds the latest entries, never more than
/// the cap, and counts exactly those that it dropped.
pub proof fn log_keeps_the_latest(test: Seq<char>, seen: Seq<Noted>)
    ensures
        ({
            let log = recorded(test, seen);
            let drops = if seen.len() > MAX_ENTRIES {
                (seen.len() - MAX_ENTRIES) as nat
            } else {
                0
            };
            &&& log.test == test
            &&& log.dropped == drops
            &&& log.entries == seen.skip(drops as int)
            &&& log.entries.len() <= MAX_ENTRIES
            &&& log.dropped > 0 ==> log.entries.len() == MAX_ENTRIES
        }),
    decreases seen.len(),
{
    if seen.len() == 0 {
        assert(seen.skip(0) =~= Log::fresh(test).entries);
    } else {
        let prev = seen.drop_last();
        log_keeps_the_latest(test, prev);
        let drops = if seen.len() > MAX_ENTRIES {
            seen.len() - MAX_ENTRIES
        } else {
            0
        };
        assert(recorded(test, seen).entries =~= seen.skip(drops));
    }
}

/// Recording goes on from where it was: in a log of the lines seen so far,
/// the next line gives the log of those and it, and there is room to count
/// its drop until 2^64 - 1 lines were dropped.
pub proof fn recording_goes_on(test: Seq<char>, seen: Seq<Noted>, e: Noted)
    ensures
        recorded(test, seen).with(e) == recorded(test, seen.push(e)),
        (recorded(test, seen).dropped < u64::MAX) == (seen.len() < MAX_ENTRIES + u64::MAX),
{
    log_keeps_the_latest(test, seen);
    assert(seen.push(e).drop_last() =~= seen);
}

/// A truncated log says so: once entries were dropped, both the whole log and
/// a tail that reaches back to the first retained entry open with a notice.
pub proof fn truncation_is_noted(log: Log, n: nat)
    requires
        log.dropped > 0,
    ensures
        n >= log.entries.len() ==> log.tail(n) == "[... "@ + dec(log.dropped)
            + " earlier entries dropped ...]\n"@ + lines(log.entries),
        log.whole() == "[... "@ + dec(log.dropped)
            + " earlier entries dropped (evidence cap) ...]\n"@ + lines(log.entries),
{
}

/// A line that is recorded comes last, as it was given. All earlier ones stay
/// as they were, but for the oldest of fifty thousand, which makes room and is
/// counted.
pub proof fn a_recorded_line_comes_last(
    log: &mut Evidence,
    source: &'static str,
    line: String,
    at_us: u128,
)
    requires
        call_ensures(Evidence::record, (log, source, line, at_us), ()),
    ensures
        ({
            let before = old(log).entries@;
            let after = final(log).entries@;
            &&& final(log).test@ == old(log).test@
            &&& after.len() > 0
            &&& after.last().line@ == line@
            &&& after.last().source@ == source@
            &&& after.last().at_us == at_us
            &&& before.len() < 50_000 ==> {
                &&& after.len() == before.len() + 1
                &&& final(log).dropped == old(log).dropped
                &&& forall|i: int| 0 <= i < before.len() ==> (#[trigger] after[i])@ == before[i]@
            }
            &&& before.len() >= 50_000 ==> {
                &&& after.len() == before.len()
                &&& final(log).dropped == old(log).dropped + 1
                &&& forall|i: int|
                    0 <= i < before.len() - 1 ==> (#[trigger] after[i])@ == before[i + 1]@
            }
        }),
{
    let before = old(log).entries@;
    let after = final(log).entries@;
    let p = old(log)@.entries;
    let q = final(log)@.entries;
    assert(p.len() == before.len() && q.len() == after.len());
    assert(q.last() == after.last()@);
    assert forall|i: int| 0 <= i < after.len() implies q[i] == (#[trigger] after[i])@ by {}
    assert forall|i: int| 0 <= i < before.len() implies p[i] == (#[trigger] before[i])@ by {}
    if before.len() < 50_000 {
        assert forall|i: int| 0 <= i < before.len() implies (#[trigger] after[i])@
            == before[i]@ by {
            assert(q[i] == p[i]);
        }
    } else {
        assert forall|i: int| 0 <= i < before.len() - 1 implies (#[trigger] after[i])@ == before[i
            + 1]@ by {
            assert(q[i] == p[i + 1]);
        }
    }
}

/// Evidence starts with nothing recorded and nothing dropped, under the
/// test's name; it is empty exactly when nothing is retained.
pub proof fn evidence_starts_empty(
    test: &str,
    fresh: Evidence,
    any: Evidence,
    empty: bool,
)
    requires
        call_ensures(Evidence::new, (test,), fresh),
        call_ensures(Evidence::is_empty, (&any,), empty),
    ensures
        fresh.test@ == test@,
        fresh.entries@.len() == 0,
        fresh.dropped == 0,
        empty == (any.entries@.len() == 0),
{
    assert(fresh@.entries.len() == fresh.entries@.len());
    assert(any@.entries.len() == any.entries@.len());
}

/// However much is recorded, it is the last fifty thousand lines that are
/// kept, in order, and the others that are counted.
pub proof fn the_last_fifty_thousand_are_kept(test: Seq<char>, seen: Seq<Noted>)
    ensures
        seen.len() <= 50_000 ==> recorded(test, seen).entries == seen && recorded(
            test,
            seen,
        ).dropped == 0,
        seen.len() > 50_000 ==> recorded(test, seen).entries == seen.skip(seen.len() - 50_000)
            && recorded(test, seen).dropped == seen.len() - 50_000,
        recorded(test, seen).test == test,
{
    log_keeps_the_latest(test, seen);
    assert(seen.skip(0) =~= seen);
}

/// Lines are shown one after the other, each on its own.
pub proof fn lines_are_shown_in_order(a: Seq<Noted>, b: Seq<Noted>)
    ensures
        lines(a + b) == lines(a) + lines(b),
    decreases b.len(),
{
    if b.len() == 0 {
        assert(a + b =~= a);
        assert(lines(a) + lines(b) =~= lines(a));
    } else {
        lines_are_shown_in_order(a, b.drop_last());
        assert((a + b).drop_last() =~= a + b.drop_last());
        assert(lines(a + b) =~= lines(a) + lines(b));
    }
}

/// A line is shown with its time in milliseconds, its source, and all of its
/// text, and ends there.
pub proof fn a_line_is_shown_whole(e: Entry, column: String)
    requires
        call_ensures(millis_column, (e.at_us,), column),
    ensures
        lines(seq![e@]) == "["@ + column@ + "ms "@ + e.source@ + "] "@ + e.line@ + "\n"@,
{
    let one = seq![e@];
    assert(one.drop_last() =~= Seq::<Noted>::empty());
    assert(lines(one.drop_last()) =~= Seq::<char>::empty());
    assert(lines(one) =~= e@.text());
}

/// A tail shows the last lines, as many as were asked for and are there, and
/// all of each. Only where it shows all that is retained does something come
/// before them: how many were dropped, if any were.
pub proof fn a_tail_shows_the_last_lines(log: Evidence, n: usize, r: String)
    requires
        call_ensures(Evidence::tail, (&log, n), r),
    ensures
        ({
            let all = log@.entries;
            let kept = if n < all.len() {
                all.skip(all.len() - n)
            } else {
                all
            };
            let head = r@.len() - lines(kept).len();
            &&& head >= 0
            &&& r@.skip(head) == lines(kept)
            &&& (head > 0) == (n >= all.len() && log.dropped > 0)
            &&& head > 0 ==> mentions(r@.take(head), dec(log.dropped as nat)) && r@[head - 1]
                == '\n'
        }),
{
    broadcast use crate::text::group_mentions;

    let all = log@.entries;
    let kept = if n < all.len() {
        all.skip(all.len() - n)
    } else {
        all
    };
    let head = r@.len() - lines(kept).len();
    assert(r@.skip(head) =~= lines(kept));
    if n >= all.len() && log.dropped > 0 {
        reveal_strlit(" earlier entries dropped ...]\n");
        let h = "[... "@ + dec(log.dropped as nat) + " earlier entries dropped ...]\n"@;
        assert(r@.take(head) =~= h);
    }
}

/// What is persisted is all that is retained, after how many were dropped, if
/// any were, under a name that is the test's, made safe.
pub proof fn all_that_is_retained_is_persisted(log: Evidence, r: (String, String))
    requires
        call_ensures(Evidence::persist, (&log,), r),
    ensures
        ({
            let head = r.1@.len() - lines(log@.entries).len();
            &&& head >= 0
            &&& r.1@.skip(head) == lines(log@.entries)
            &&& (head > 0) == (log.dropped > 0)
            &&& head > 0 ==> mentions(r.1@.take(head), dec(log.dropped as nat)) && r.1@[head - 1]
                == '\n'
        }),
        r.0@.len() == log.test@.len() + 13,
        r.0@.skip(log.test@.len() as int) == ".evidence.log"@,
        forall|i: int|
            0 <= i < log.test@.len() ==> is_made_safe(log.test@[i], #[trigger] r.0@[i]),
{
    broadcast use crate::text::group_mentions;

    let head = r.1@.len() - lines(log@.entries).len();
    assert(r.1@.skip(head) =~= lines(log@.entries));
    if log.dropped > 0 {
        reveal_strlit(" earlier entries dropped (evidence cap) ...]\n");
        let h = "[... "@ + dec(log.dropped as nat) + " earlier entries dropped (evidence cap) ...]\n"@;
        assert(r.1@.take(head) =~= h);
    }
    reveal_strlit(".evidence.log");
    assert(r.0@.skip(log.test@.len() as int) =~= ".evidence.log"@);
    assert forall|i: int| 0 <= i < log.test@.len() implies is_made_safe(
        log.test@[i],
        #[trigger] r.0@[i],
    ) by {
        assert(r.0@[i] == sanitized(log.test@)[i]);
        lemma_made_safe(log.test@, i);
    }
}

/// `d` is `c` where that is an ASCII letter or digit, a dash or an underscore,
/// and an underscore where it is anything else.
pub open spec fn is_made_safe(c: char, d: char) -> bool {
    let n = c as int;
    if 48 <= n <= 57 || 65 <= n <= 90 || 97 <= n <= 122 || n == 45 || n == 95 {
        d == c
    } else {
        d == '_'
    }
}

/// Making a name safe goes character by character.
pub proof fn a_name_is_made_safe(test: &str, r: String)
    requires
        call_ensures(sanitize, (test,), r),
    ensures
        r@.len() == test@.len(),
        forall|i: int| 0 <= i < test@.len() ==> is_made_safe(test@[i], #[trigger] r@[i]),
{
    assert forall|i: int| 0 <= i < test@.len() implies is_made_safe(
        test@[i],
        #[trigger] r@[i],
    ) by {
        lemma_made_safe(test@, i);
    }
}

proof fn lemma_made_safe(test: Seq<char>, i: int)
    requires
        0 <= i < test.len(),
    ensures
        is_made_safe(test[i], sanitized(test)[i]),
{
    let c = test[i];
    assert(sanitized(test)[i] == if is_safe(c) {
        c
    } else {
        '_'
    });
}

} // verus!
