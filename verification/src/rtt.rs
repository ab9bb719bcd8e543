//! Turning the bytes of a target's log channel into lines.

use crate::text::{decode, join, lossy, mentions, trim_end, trimmed_end};
use vstd::prelude::*;
use vstd::string::*;

verus! {

/// Cap on an unterminated line. Past this, what is pending is flushed as one
/// oversized line so a newline-less device cannot grow host memory unbounded.
pub const MAX_LINE: usize = 65536;

/// The byte that ends a line.
pub const NEWLINE: u8 = 10;

/// The lines that `b` completes when `pending` came before it, each with its
/// newline, and what is then pending.
pub open spec fn gather(pending: Seq<u8>, b: Seq<u8>) -> (Seq<Seq<u8>>, Seq<u8>)
    decreases b.len(),
{
    if b.len() == 0 {
        (seq![], pending)
    } else {
        let (lines, rest) = gather(pending, b.drop_last());
        if b.last() == NEWLINE {
            (lines.push(rest.push(NEWLINE)), seq![])
        } else {
            (lines, rest.push(b.last()))
        }
    }
}

/// The lines handed out when `b` arrives, and what is then pending: complete
/// lines, and an oversized rest as a line of its own.
pub open spec fn taken_in(pending: Seq<u8>, b: Seq<u8>) -> (Seq<Seq<u8>>, Seq<u8>) {
    let (lines, rest) = gather(pending, b);
    if rest.len() > MAX_LINE {
        (lines.push(rest), seq![])
    } else {
        (lines, rest)
    }
}

/// A line as it is handed out: its text, without what trails.
pub open spec fn shown(line: Seq<u8>) -> Seq<char> {
    trimmed_end(lossy(line))
}

/// Bytes of a line that is not complete yet.
#[derive(Debug)]
pub struct LineBuffer {
    pub pending: Vec<u8>,
}

impl LineBuffer {
    /// A buffer in which nothing is pending.
    pub fn new() -> (r: Self)
        ensures
            r.pending@.len() == 0,
    {
        LineBuffer { pending: Vec::new() }
    }

    /// Takes in what the channel read and hands out the lines that are
    /// complete.
    pub fn poll_rtt(&mut self, read: &[u8]) -> (r: Vec<String>)
        ensures
            r@.len() == taken_in(old(self).pending@, read@).0.len(),
            forall|i: int|
                0 <= i < r@.len() ==> (#[trigger] r@[i])@ == shown(
                    taken_in(old(self).pending@, read@).0[i],
                ),
            final(self).pending@ == taken_in(old(self).pending@, read@).1,
    {
        let ghost before = self.pending@;
        let mut out: Vec<String> = Vec::new();
        let mut i: usize = 0;
        assert(read@.take(0) =~= Seq::<u8>::empty());
        while i < read.len()
            invariant
                i <= read@.len(),
                self.pending@ == gather(before, read@.take(i as int)).1,
                out@.len() == gather(before, read@.take(i as int)).0.len(),
                forall|k: int|
                    0 <= k < out@.len() ==> (#[trigger] out@[k])@ == shown(
                        gather(before, read@.take(i as int)).0[k],
                    ),
            decreases read.len() - i,
        {
            let byte = read[i];
            proof {
                assert(read@.take(i + 1).drop_last() =~= read@.take(i as int));
                assert(read@.take(i + 1).last() == byte);
            }
            self.pending.push(byte);
            if byte == NEWLINE {
                let line = decode(self.pending.as_slice());
                out.push(trim_end(line.as_str()));
                self.pending = Vec::new();
            }
            i += 1;
        }
        assert(read@.take(i as int) =~= read@);
        if self.pending.len() > MAX_LINE {
            let line = decode(self.pending.as_slice());
            out.push(trim_end(line.as_str()));
            self.pending = Vec::new();
        }
        out
    }
}

/// The bytes of all lines in a row.
pub open spec fn joined(lines: Seq<Seq<u8>>) -> Seq<u8>
    decreases lines.len(),
{
    if lines.len() == 0 {
        seq![]
    } else {
        joined(lines.drop_last()) + lines.last()
    }
}

/// No byte is lost, made up or moved: the lines handed out and what is
/// pending are, in a row, what was pending and what arrived.
pub proof fn no_byte_is_lost(pending: Seq<u8>, b: Seq<u8>)
    ensures
        joined(taken_in(pending, b).0) + taken_in(pending, b).1 == pending + b,
{
    lemma_gather_joined(pending, b);
    let (lines, rest) = gather(pending, b);
    if rest.len() > MAX_LINE {
        assert(lines.push(rest).drop_last() =~= lines);
        assert(joined(lines.push(rest)) + Seq::<u8>::empty() =~= pending + b);
    }
}

proof fn lemma_gather_joined(pending: Seq<u8>, b: Seq<u8>)
    ensures
        joined(gather(pending, b).0) + gather(pending, b).1 == pending + b,
    decreases b.len(),
{
    if b.len() == 0 {
        assert(joined(seq![]) + pending =~= pending + b);
    } else {
        lemma_gather_joined(pending, b.drop_last());
        let (lines, rest) = gather(pending, b.drop_last());
        assert(pending + b =~= (pending + b.drop_last()).push(b.last()));
        if b.last() == NEWLINE {
            let line = rest.push(NEWLINE);
            assert(lines.push(line).drop_last() =~= lines);
            assert(joined(lines.push(line)) + Seq::<u8>::empty() =~= pending + b);
        } else {
            assert(joined(lines) + rest.push(b.last()) =~= pending + b);
        }
    }
}

/// However much a target writes, never more than the cap stays pending.
pub proof fn pending_is_bounded(pending: Seq<u8>, b: Seq<u8>)
    ensures
        taken_in(pending, b).1.len() <= MAX_LINE,
{
}

/// Every complete line ends at its only newline, and none stays pending.
pub proof fn lines_end_at_newlines(pending: Seq<u8>, b: Seq<u8>)
    requires
        !pending.contains(NEWLINE),
    ensures
        !gather(pending, b).1.contains(NEWLINE),
        forall|i: int|
            0 <= i < gather(pending, b).0.len() ==> {
                let line = #[trigger] gather(pending, b).0[i];
                line.len() > 0 && line.last() == NEWLINE && !line.drop_last().contains(NEWLINE)
            },
    decreases b.len(),
{
    if b.len() > 0 {
        lines_end_at_newlines(pending, b.drop_last());
        let (lines, rest) = gather(pending, b.drop_last());
        if b.last() == NEWLINE {
            let line = rest.push(NEWLINE);
            assert(line.drop_last() =~= rest);
        } else {
            let next = rest.push(b.last());
            assert forall|i: int| 0 <= i < next.len() implies next[i] != NEWLINE by {
                if i < rest.len() {
                    assert(rest.contains(rest[i]));
                }
            }
        }
    }
}

/// Where the reads of the channel are cut does not matter.
pub proof fn cuts_do_not_matter(pending: Seq<u8>, a: Seq<u8>, b: Seq<u8>)
    ensures
        ({
            let (first, rest) = gather(pending, a);
            let (more, end) = gather(rest, b);
            gather(pending, a + b) == (first + more, end)
        }),
    decreases b.len(),
{
    let (first, rest) = gather(pending, a);
    let (more, end) = gather(rest, b);
    if b.len() == 0 {
        assert(a + b =~= a);
        assert(first + more =~= first);
    } else {
        cuts_do_not_matter(pending, a, b.drop_last());
        assert((a + b).drop_last() =~= a + b.drop_last());
        let (m, e) = gather(rest, b.drop_last());
        if b.last() == NEWLINE {
            assert((first + m).push(e.push(NEWLINE)) =~= first + more);
        }
    }
}

/// Health of a capture: why observation was lost, if it was.
#[derive(Debug)]
pub struct CaptureHealth {
    pub fault: Option<String>,
}

/// What the worker that owns the probe session waits for.
#[derive(Debug, Clone, Copy, PartialEq, Eq, Structural)]
pub enum Wait {
    /// The next command, for as long as it takes.
    Block,
    /// The next command, for ten milliseconds.
    Poll,
}

/// What ended a wait.
#[derive(Debug, Clone, Copy, PartialEq, Eq, Structural)]
pub enum WorkerEvent {
    Flash,
    Reset,
    StartRtt,
    Timeout,
    /// Nobody can send commands any more.
    Disconnected,
}

/// What the worker does about it.
#[derive(Debug, Clone, Copy, PartialEq, Eq, Structural)]
pub enum WorkerAction {
    Flash,
    Reset,
    AttachRtt,
    Nothing,
    End,
}

/// One thing to do with the probe session.
#[derive(Debug, Clone, Copy, PartialEq, Eq, Structural)]
pub enum ProbeStep {
    /// Write the image to flash.
    Download,
    /// Reset the core, which then runs.
    Reset,
    /// Attach to the log channel.
    Attach,
}

impl WorkerAction {
    /// The steps of the action.
    pub open spec fn parts(self) -> Seq<ProbeStep> {
        match self {
            WorkerAction::Flash => seq![ProbeStep::Download, ProbeStep::Reset],
            WorkerAction::Reset => seq![ProbeStep::Reset],
            WorkerAction::AttachRtt => seq![ProbeStep::Attach],
            WorkerAction::Nothing => seq![],
            WorkerAction::End => seq![],
        }
    }

    /// What the action does with the probe session, in order; the first step
    /// that fails ends it. Flashing leaves the core running the new image.
    pub fn steps(&self) -> (r: Vec<ProbeStep>)
        ensures
            r@ == self.parts(),
    {
        let mut v: Vec<ProbeStep> = Vec::new();
        match self {
            WorkerAction::Flash => {
                v.push(ProbeStep::Download);
                v.push(ProbeStep::Reset);
            },
            WorkerAction::Reset => v.push(ProbeStep::Reset),
            WorkerAction::AttachRtt => v.push(ProbeStep::Attach),
            WorkerAction::Nothing => {},
            WorkerAction::End => {},
        }
        assert(v@ =~= self.parts());
        v
    }
}

/// The worker that owns the probe session.
#[derive(Debug)]
pub struct Worker {
    /// Whether a capture is running.
    pub capturing: bool,
}

/// Whether a capture goes on after what ended a wait: flashing ends it.
pub open spec fn capturing_after(capturing: bool, event: WorkerEvent) -> bool {
    capturing && event != WorkerEvent::Flash
}

/// One turn of the worker: what ended the wait, whether an attachment that
/// was asked for succeeded, whether the owner had stopped the capture, and
/// how a read of the channel goes, if there is one.
pub struct WorkerTurn {
    pub event: WorkerEvent,
    pub attached: bool,
    pub stopped: bool,
    pub read_ok: bool,
}

impl WorkerTurn {
    /// In this turn a capture starts.
    pub open spec fn starts(self) -> bool {
        self.event == WorkerEvent::StartRtt && self.attached
    }

    /// In this turn the channel is read, when a capture was running or not.
    pub open spec fn reads(self, capturing: bool) -> bool {
        (capturing_after(capturing, self.event) || self.starts()) && !self.stopped
    }

    /// Whether a capture is running after this turn.
    pub open spec fn leaves(self, capturing: bool) -> bool {
        self.reads(capturing) && self.read_ok
    }
}

/// Whether a capture is running after the first `n` turns.
pub open spec fn capturing_in(turns: Seq<WorkerTurn>, n: int) -> bool
    decreases n,
{
    n > 0 && turns[n - 1].leaves(capturing_in(turns, n - 1))
}

/// The channel is read exactly while a capture lasts: from the turn that
/// attached it on, until the target is flashed, the owner stops it, or a read
/// fails. What was lost stays lost until a new capture starts.
pub proof fn reads_belong_to_a_capture(turns: Seq<WorkerTurn>, n: int)
    requires
        0 <= n < turns.len(),
    ensures
        turns[n].reads(capturing_in(turns, n)) == exists|m: int|
            0 <= m <= n && #[trigger] lasts(turns, m, n),
{
    lemma_capturing(turns, n);
    if turns[n].reads(capturing_in(turns, n)) {
        if turns[n].starts() {
            assert(lasts(turns, n, n));
        } else {
            let m = choose|m: int| 0 <= m < n && #[trigger] lasts(turns, m, n - 1);
            assert(lasts(turns, m, n));
        }
    }
    if exists|m: int| 0 <= m <= n && #[trigger] lasts(turns, m, n) {
        let m = choose|m: int| 0 <= m <= n && #[trigger] lasts(turns, m, n);
        if m < n {
            assert(lasts(turns, m, n - 1));
        }
    }
}

/// A capture that starts in turn `m` is still read in turn `n`.
pub open spec fn lasts(turns: Seq<WorkerTurn>, m: int, n: int) -> bool {
    &&& turns[m].starts()
    &&& forall|i: int| m < i <= n ==> (#[trigger] turns[i]).event != WorkerEvent::Flash
    &&& forall|i: int| m <= i <= n ==> !(#[trigger] turns[i]).stopped
    &&& forall|i: int| m <= i < n ==> (#[trigger] turns[i]).read_ok
}

proof fn lemma_capturing(turns: Seq<WorkerTurn>, n: int)
    requires
        0 <= n <= turns.len(),
    ensures
        capturing_in(turns, n) == (n > 0 && turns[n - 1].read_ok && exists|m: int|
            0 <= m < n && #[trigger] lasts(turns, m, n - 1)),
    decreases n,
{
    if n > 0 {
        lemma_capturing(turns, n - 1);
        let t = turns[n - 1];
        if capturing_in(turns, n) {
            if t.starts() {
                assert(lasts(turns, n - 1, n - 1));
            } else {
                let m = choose|m: int| 0 <= m < n - 1 && #[trigger] lasts(turns, m, n - 2);
                assert(lasts(turns, m, n - 1));
            }
        }
        if t.read_ok && exists|m: int| 0 <= m < n && #[trigger] lasts(turns, m, n - 1) {
            let m = choose|m: int| 0 <= m < n && #[trigger] lasts(turns, m, n - 1);
            if m < n - 1 {
                assert(lasts(turns, m, n - 2));
            }
        }
    }
}

impl Worker {
    /// A worker with no capture running.
    pub fn new() -> (r: Self)
        ensures
            !r.capturing,
    {
        Worker { capturing: false }
    }

    /// What to wait for: with a capture running, commands are only checked
    /// between reads of the channel.
    pub fn wait(&self) -> (r: Wait)
        ensures
            r == (if self.capturing {
                Wait::Poll
            } else {
                Wait::Block
            }),
    {
        if self.capturing {
            Wait::Poll
        } else {
            Wait::Block
        }
    }

    /// What to do about what ended the wait. Flashing ends a capture, for it
    /// invalidates any attachment.
    pub fn woken(&mut self, event: WorkerEvent) -> (r: WorkerAction)
        ensures
            r == match event {
                WorkerEvent::Flash => WorkerAction::Flash,
                WorkerEvent::Reset => WorkerAction::Reset,
                WorkerEvent::StartRtt => WorkerAction::AttachRtt,
                WorkerEvent::Timeout => WorkerAction::Nothing,
                WorkerEvent::Disconnected => WorkerAction::End,
            },
            final(self).capturing == capturing_after(old(self).capturing, event),
    {
        match event {
            WorkerEvent::Flash => {
                self.capturing = false;
                WorkerAction::Flash
            },
            WorkerEvent::Reset => WorkerAction::Reset,
            WorkerEvent::StartRtt => WorkerAction::AttachRtt,
            WorkerEvent::Timeout => WorkerAction::Nothing,
            WorkerEvent::Disconnected => WorkerAction::End,
        }
    }

    /// Goes on once the channel was attached to or not: a failed attachment
    /// leaves an earlier capture running.
    pub fn attached(&mut self, ok: bool)
        ensures
            final(self).capturing == (old(self).capturing || ok),
    {
        if ok {
            self.capturing = true;
        }
    }

    /// Whether to read the channel now: only while a capture is running and
    /// its owner has not stopped it. A stopped capture ends.
    pub fn should_read(&mut self, stopped: bool) -> (r: bool)
        ensures
            r == (old(self).capturing && !stopped),
            final(self).capturing == r,
    {
        if stopped {
            self.capturing = false;
        }
        self.capturing
    }

    /// Takes note of how a read of the channel went. A fault ends the capture
    /// and is recorded where the owner can see it, never in the line stream:
    /// lost observation must not look like a quiet channel.
    pub fn read_done(&mut self, result: Result<(), String>, health: &mut CaptureHealth)
        ensures
            match result {
                Ok(_) => final(self).capturing == old(self).capturing && *final(health) == *old(
                    health,
                ),
                Err(e) => !final(self).capturing && (final(health).fault matches Some(f) && f@
                    == "rtt read error: "@ + e@),
            },
    {
        if let Err(e) = result {
            health.fault(join("rtt read error: ", e.as_str()));
            self.capturing = false;
        }
    }
}

impl CaptureHealth {
    /// A healthy capture.
    pub fn new() -> (r: Self)
        ensures
            r.fault is None,
    {
        CaptureHealth { fault: None }
    }

    /// Records that observation was lost.
    pub fn fault(&mut self, what: String)
        ensures
            final(self).fault == Some(what),
    {
        self.fault = Some(what);
    }
}

/// `lines` are handed out of `stream`, and `left` stays pending. In a row they
/// are the stream. Every line ends at its only newline, but for a last one
/// that has none, is longer than 65536 bytes, and leaves nothing pending; and
/// what is pending has no newline and is no longer than that.
pub open spec fn handed_out(lines: Seq<Seq<u8>>, stream: Seq<u8>, left: Seq<u8>) -> bool {
    &&& joined(lines) + left == stream
    &&& left.len() <= 65536
    &&& !left.contains(10u8)
    &&& forall|i: int|
        0 <= i < lines.len() ==> {
            let line = #[trigger] lines[i];
            ||| line.len() > 0 && line.last() == 10 && !line.drop_last().contains(10u8)
            ||| i == lines.len() - 1 && line.len() > 65536 && !line.contains(10u8) && left.len()
                == 0
        }
}

/// A poll hands out the lines of what was pending and what was read, each as
/// text without the white space at its end, and keeps the rest: a line is
/// complete only at its newline, or when it is longer than 65536 bytes.
pub proof fn a_poll_hands_out_whole_lines(buf: &mut LineBuffer, read: &[u8], r: Vec<String>)
    requires
        call_ensures(LineBuffer::poll_rtt, (buf, read), r),
        !old(buf).pending@.contains(10u8),
    ensures
        exists|lines: Seq<Seq<u8>>| #[trigger]
            handed_out(lines, old(buf).pending@ + read@, final(buf).pending@) && r@.len()
                == lines.len() && forall|i: int|
                0 <= i < lines.len() ==> (#[trigger] r@[i])@ == trimmed_end(lossy(lines[i])),
{
    let (lines, left) = taken_in(old(buf).pending@, read@);
    lemma_handed_out(old(buf).pending@, read@);
    assert(handed_out(lines, old(buf).pending@ + read@, left));
}

/// What a poll takes in is handed out as lines end, and not before.
pub proof fn lemma_handed_out(pending: Seq<u8>, b: Seq<u8>)
    requires
        !pending.contains(10u8),
    ensures
        handed_out(taken_in(pending, b).0, pending + b, taken_in(pending, b).1),
{
    no_byte_is_lost(pending, b);
    lines_end_at_newlines(pending, b);
    let (lines, left) = taken_in(pending, b);
    let (whole, rest) = gather(pending, b);
    assert forall|i: int| 0 <= i < lines.len() implies ({
        let line = #[trigger] lines[i];
        ||| line.len() > 0 && line.last() == 10 && !line.drop_last().contains(10u8)
        ||| i == lines.len() - 1 && line.len() > 65536 && !line.contains(10u8) && left.len() == 0
    }) by {
        if i < whole.len() {
            assert(lines[i] == whole[i]);
        }
    }
}

/// There is a newline among the 65537 bytes from index `i` on.
pub open spec fn newline_from(s: Seq<u8>, i: int) -> bool {
    exists|j: int| i <= j <= i + 65536 && #[trigger] s[j] == 10
}

/// No line of the stream is longer than 65536 bytes: of so many and one, one
/// is a newline.
pub open spec fn lines_fit(s: Seq<u8>) -> bool {
    forall|i: int| 0 <= i && i + 65537 <= s.len() ==> #[trigger] newline_from(s, i)
}

proof fn lemma_prefix_fits(s: Seq<u8>, t: Seq<u8>)
    requires
        lines_fit(s + t),
    ensures
        lines_fit(s),
{
    assert forall|i: int| 0 <= i && i + 65537 <= s.len() implies #[trigger] newline_from(s, i) by {
        assert(newline_from(s + t, i));
        let j = choose|j: int| i <= j <= i + 65536 && #[trigger] (s + t)[j] == 10;
        assert(s[j] == 10);
    }
}

/// As long as lines fit, what is handed out ends with a newline in the
/// stream, each of it.
pub proof fn nothing_is_cut_that_fits(pending: Seq<u8>, b: Seq<u8>)
    requires
        !pending.contains(10u8),
        lines_fit(pending + b),
    ensures
        taken_in(pending, b) == gather(pending, b),
        forall|i: int|
            0 <= i < taken_in(pending, b).0.len() ==> {
                let line = #[trigger] taken_in(pending, b).0[i];
                line.len() > 0 && line.last() == 10 && !line.drop_last().contains(10u8)
            },
{
    lines_end_at_newlines(pending, b);
    lemma_gather_joined(pending, b);
    let (lines, rest) = gather(pending, b);
    let s = pending + b;
    let i = s.len() - rest.len();
    assert(s == joined(lines) + rest);
    if rest.len() > 65536 {
        assert(newline_from(s, i));
        let j = choose|j: int| i <= j <= i + 65536 && #[trigger] s[j] == 10;
        assert(rest[j - i] == s[j]);
        assert(rest.contains(10u8));
    }
}

/// Where the reads of a log are cut does not matter: as long as its lines
/// fit, two polls hand out, one after the other, what one poll of both reads
/// does, and leave the same pending.
pub proof fn polls_may_be_cut_anywhere(
    first: &mut LineBuffer,
    a: &[u8],
    ra: Vec<String>,
    second: &mut LineBuffer,
    b: &[u8],
    rb: Vec<String>,
    whole: &mut LineBuffer,
    both: &[u8],
    r: Vec<String>,
)
    requires
        !old(first).pending@.contains(10u8),
        lines_fit(old(first).pending@ + both@),
        both@ == a@ + b@,
        *old(whole) == *old(first),
        *old(second) == *final(first),
        call_ensures(LineBuffer::poll_rtt, (first, a), ra),
        call_ensures(LineBuffer::poll_rtt, (second, b), rb),
        call_ensures(LineBuffer::poll_rtt, (whole, both), r),
    ensures
        r@.len() == ra@.len() + rb@.len(),
        forall|i: int| 0 <= i < ra@.len() ==> (#[trigger] r@[i])@ == ra@[i]@,
        forall|i: int| 0 <= i < rb@.len() ==> (#[trigger] rb@[i])@ == r@[ra@.len() + i]@,
        final(whole).pending@ == final(second).pending@,
{
    let p = old(first).pending@;
    assert(p + both@ =~= (p + a@) + b@);
    lemma_prefix_fits(p + a@, b@);
    nothing_is_cut_that_fits(p, both@);
    nothing_is_cut_that_fits(p, a@);
    lines_end_at_newlines(p, a@);
    lemma_gather_joined(p, a@);
    let (lines, rest) = gather(p, a@);
    assert(joined(lines) + (rest + b@) =~= p + both@);
    lemma_suffix_fits(joined(lines), rest + b@);
    nothing_is_cut_that_fits(rest, b@);
    cuts_do_not_matter(p, a@, b@);
}

proof fn lemma_suffix_fits(s: Seq<u8>, t: Seq<u8>)
    requires
        lines_fit(s + t),
    ensures
        lines_fit(t),
{
    assert forall|i: int| 0 <= i && i + 65537 <= t.len() implies #[trigger] newline_from(t, i) by {
        let k = s.len() + i;
        assert(newline_from(s + t, k));
        let j = choose|j: int| k <= j <= k + 65536 && #[trigger] (s + t)[j] == 10;
        assert(t[j - s.len()] == 10);
    }
}

/// What is handed out over the first `n` reads, and what is then pending.
pub open spec fn taken_in_reads(pending: Seq<u8>, reads: Seq<Seq<u8>>, n: int) -> (
    Seq<Seq<u8>>,
    Seq<u8>,
)
    decreases n,
{
    if n <= 0 {
        (seq![], pending)
    } else {
        let (lines, rest) = taken_in_reads(pending, reads, n - 1);
        let (more, end) = taken_in(rest, reads[n - 1]);
        (lines + more, end)
    }
}

/// However a stream whose lines fit is cut into reads, the same is handed out
/// as of the stream in one piece.
pub proof fn any_cut_gives_the_same_lines(pending: Seq<u8>, reads: Seq<Seq<u8>>)
    requires
        !pending.contains(10u8),
        lines_fit(pending + joined(reads)),
    ensures
        taken_in_reads(pending, reads, reads.len() as int) == taken_in(pending, joined(reads)),
    decreases reads.len(),
{
    nothing_is_cut_that_fits(pending, joined(reads));
    if reads.len() == 0 {
        assert(gather(pending, joined(reads)).0 =~= Seq::<Seq<u8>>::empty());
    } else {
        let n = reads.len() as int;
        let before = reads.drop_last();
        let a = joined(before);
        let b = reads.last();
        assert(pending + joined(reads) =~= (pending + a) + b);
        lemma_prefix_fits(pending + a, b);
        any_cut_gives_the_same_lines(pending, before);
        lemma_same_reads(pending, reads, before, n - 1);
        nothing_is_cut_that_fits(pending, a);
        lines_end_at_newlines(pending, a);
        lemma_gather_joined(pending, a);
        let (lines, rest) = gather(pending, a);
        assert(joined(lines) + (rest + b) =~= pending + joined(reads));
        lemma_suffix_fits(joined(lines), rest + b);
        nothing_is_cut_that_fits(rest, b);
        cuts_do_not_matter(pending, a, b);
    }
}

proof fn lemma_same_reads(pending: Seq<u8>, x: Seq<Seq<u8>>, y: Seq<Seq<u8>>, n: int)
    requires
        0 <= n <= x.len(),
        n <= y.len(),
        forall|i: int| 0 <= i < n ==> x[i] == y[i],
    ensures
        taken_in_reads(pending, x, n) == taken_in_reads(pending, y, n),
    decreases n,
{
    if n > 0 {
        lemma_same_reads(pending, x, y, n - 1);
    }
}

/// One turn of the worker. The channel is read exactly when a capture was
/// running and the target was not flashed, or one starts in this turn, and
/// its owner has not stopped it; it goes on exactly when it was read and that
/// went well; and a read that failed is on record, with the reason.
pub proof fn a_turn_reads_while_a_capture_lasts(
    woken: &mut Worker,
    event: WorkerEvent,
    action: WorkerAction,
    attached: &mut Worker,
    ok: bool,
    asked: &mut Worker,
    stopped: bool,
    read: bool,
    done: &mut Worker,
    result: Result<(), String>,
    health: &mut CaptureHealth,
)
    requires
        call_ensures(Worker::woken, (woken, event), action),
        action is AttachRtt ==> *old(attached) == *final(woken) && call_ensures(
            Worker::attached,
            (attached, ok),
            (),
        ) && *old(asked) == *final(attached),
        !(action is AttachRtt) ==> *old(asked) == *final(woken),
        call_ensures(Worker::should_read, (asked, stopped), read),
        *old(done) == *final(asked),
        call_ensures(Worker::read_done, (done, result, health), ()),
    ensures
        read == (((old(woken).capturing && !(event is Flash)) || (event is StartRtt && ok))
            && !stopped),
        final(asked).capturing == read,
        final(done).capturing == (read && result is Ok),
        result is Ok ==> *final(health) == *old(health),
        result matches Err(e) ==> (final(health).fault matches Some(f) && mentions(f@, e@)),
        action is End == (event is Disconnected),
{
    broadcast use crate::text::group_mentions;

}

/// What a command does with the probe session: flashing writes the image and
/// then resets the core, a reset resets it, a capture attaches, and nothing
/// else touches the session.
pub proof fn commands_take_their_steps(
    worker: &mut Worker,
    event: WorkerEvent,
    action: WorkerAction,
    steps: Vec<ProbeStep>,
)
    requires
        call_ensures(Worker::woken, (worker, event), action),
        call_ensures(WorkerAction::steps, (&action,), steps),
    ensures
        event is Flash ==> steps@.len() == 2 && steps@[0] is Download && steps@[1] is Reset,
        event is Reset ==> steps@.len() == 1 && steps@[0] is Reset,
        event is StartRtt ==> steps@.len() == 1 && steps@[0] is Attach,
        event is Timeout || event is Disconnected ==> steps@.len() == 0,
{
}

/// A buffer starts with nothing pending, a capture in good health, and what
/// is put on record stays as it was given.
pub proof fn a_capture_starts_clean(
    buf: LineBuffer,
    fresh: CaptureHealth,
    health: &mut CaptureHealth,
    what: String,
)
    requires
        call_ensures(LineBuffer::new, (), buf),
        call_ensures(CaptureHealth::new, (), fresh),
        call_ensures(CaptureHealth::fault, (health, what), ()),
    ensures
        buf.pending@.len() == 0,
        fresh.fault is None,
        final(health).fault matches Some(f) && f@ == what@,
{
}

/// The worker blocks exactly while it has nothing to read.
pub proof fn a_worker_polls_while_it_captures(worker: Worker, r: Wait, fresh: Worker)
    requires
        call_ensures(Worker::wait, (&worker,), r),
        call_ensures(Worker::new, (), fresh),
    ensures
        r is Poll == worker.capturing,
        !fresh.capturing,
{
}

} // verus!
