//! Framing of a byte stream: a 4-byte little-endian length before each frame,
//! both directions, capped at [`MAX_FRAME`].

use crate::text::{dec, mentions, push_dec};
use vstd::prelude::*;
use vstd::slice::*;
use vstd::string::*;

verus! {

/// Upper bound on a single frame, both directions. Generous for RPC frames
/// and small chunked payloads; a peer exceeding it is broken or hostile.
pub const MAX_FRAME: usize = 256 * 1024;

/// Why a stream does not yield a frame.
#[derive(Debug, Clone, Copy, PartialEq, Eq, Structural)]
pub enum FrameError {
    /// The stream ends before the frame does.
    UnexpectedEof,
    /// The announced length exceeds [`MAX_FRAME`].
    TooLong(usize),
}

/// `n` as four bytes, the lowest first.
pub open spec fn le4(n: nat) -> Seq<u8> {
    seq![
        (n % 256) as u8,
        (n / 256 % 256) as u8,
        (n / 65536 % 256) as u8,
        (n / 16777216 % 256) as u8,
    ]
}

/// The number whose four bytes are `b[0..4]`, the lowest first.
pub open spec fn le4_value(b: Seq<u8>) -> nat {
    (b[0] + 256 * b[1] + 65536 * b[2] + 16777216 * b[3]) as nat
}

/// `data` as it stands on the wire.
pub open spec fn frame_of(data: Seq<u8>) -> Seq<u8> {
    le4(data.len()) + data
}

/// The length that the four bytes `prefix` announce, unless it is too long.
pub open spec fn announced(prefix: Seq<u8>) -> Result<usize, FrameError> {
    if le4_value(prefix) > MAX_FRAME {
        Err(FrameError::TooLong(le4_value(prefix) as usize))
    } else {
        Ok(le4_value(prefix) as usize)
    }
}

/// What the stream `b` yields, and what is left of it: a frame and what
/// follows; of a frame that is too long only the length is read; a stream
/// that ends too soon is read to its end.
pub open spec fn read_of(b: Seq<u8>) -> (Result<Seq<u8>, FrameError>, Seq<u8>) {
    if b.len() < 4 {
        (Err(FrameError::UnexpectedEof), seq![])
    } else {
        match announced(b.take(4)) {
            Err(e) => (Err(e), b.skip(4)),
            Ok(n) => if b.len() < 4 + n {
                (Err(FrameError::UnexpectedEof), seq![])
            } else {
                (Ok(b.subrange(4, 4 + n)), b.skip(4 + n))
            },
        }
    }
}

/// Appends `data` to `w` as one frame. The length is written modulo 2^32;
/// nobody reads a frame longer than [`MAX_FRAME`].
pub fn write_frame_sync(w: &mut Vec<u8>, data: &[u8])
    ensures
        final(w)@ == old(w)@ + frame_of(data@),
{
    let n: usize = data.len();
    w.push((n % 256) as u8);
    w.push((n / 256 % 256) as u8);
    w.push((n / 65536 % 256) as u8);
    w.push((n / 16777216 % 256) as u8);
    w.extend_from_slice(data);
    assert(w@ =~= old(w)@ + frame_of(data@));
}

/// The length that a frame's first four bytes announce.
pub fn frame_len(prefix: &[u8; 4]) -> (r: Result<usize, FrameError>)
    ensures
        r == announced(prefix@),
{
    let n: u32 = prefix[0] as u32 + 256 * (prefix[1] as u32) + 65536 * (prefix[2] as u32)
        + 16777216 * (prefix[3] as u32);
    if n as usize > MAX_FRAME {
        Err(FrameError::TooLong(n as usize))
    } else {
        Ok(n as usize)
    }
}

/// Reads the first frame of the stream `r`, and hands back what is left of
/// the stream.
pub fn read_frame_sync(r: &[u8]) -> (res: (Result<Vec<u8>, FrameError>, &[u8]))
    ensures
        match read_of(r@).0 {
            Ok(data) => res.0 matches Ok(d) && d@ == data,
            Err(e) => res.0 matches Err(err) && err == e,
        },
        res.1@ == read_of(r@).1,
{
    let end = slice_subrange(r, r.len(), r.len());
    assert(end@ =~= Seq::<u8>::empty());
    if r.len() < 4 {
        return (Err(FrameError::UnexpectedEof), end);
    }
    let prefix: [u8; 4] = [r[0], r[1], r[2], r[3]];
    assert(prefix@ == r@.take(4));
    let n: usize = match frame_len(&prefix) {
        Ok(n) => n,
        Err(e) => {
            let tail = slice_subrange(r, 4, r.len());
            assert(tail@ == r@.skip(4));
            return (Err(e), tail);
        },
    };
    if r.len() - 4 < n {
        return (Err(FrameError::UnexpectedEof), end);
    }
    let data = slice_to_vec(slice_subrange(r, 4, 4 + n));
    let tail = slice_subrange(r, 4 + n, r.len());
    assert(tail@ == r@.skip(4 + n));
    (Ok(data), tail)
}

impl FrameError {
    /// The text that reports the error.
    pub open spec fn text(self) -> Seq<char> {
        match self {
            FrameError::UnexpectedEof => "failed to fill whole buffer"@,
            FrameError::TooLong(len) => "frame of "@ + dec(len as nat)
                + " bytes exceeds MAX_FRAME"@,
        }
    }

    /// Reports the error.
    pub fn to_string(&self) -> (r: String)
        ensures
            r@ == self.text(),
    {
        match self {
            FrameError::UnexpectedEof => "failed to fill whole buffer".to_owned(),
            FrameError::TooLong(len) => {
                let mut out = "frame of ".to_owned();
                push_dec(&mut out, *len as u128);
                out.append(" bytes exceeds MAX_FRAME");
                out
            },
        }
    }
}

proof fn lemma_le4(n: nat)
    requires
        n <= u32::MAX,
    ensures
        le4_value(le4(n)) == n,
{
}

/// A frame written to the wire reads back as itself, and reading stops
/// exactly at its end.
pub proof fn frame_reads_back(data: Seq<u8>, rest: Seq<u8>)
    requires
        data.len() <= MAX_FRAME,
    ensures
        read_of(frame_of(data) + rest) == (Ok::<Seq<u8>, FrameError>(data), rest),
{
    lemma_le4(data.len());
    let b = frame_of(data) + rest;
    let n = data.len() as int;
    assert(b.take(4) == le4(data.len()));
    assert(b.subrange(4, 4 + n) == data);
    assert(b.skip(4 + n) == rest);
}

/// A frame cut short is reported as such, wherever the cut is: it never
/// reads as a shorter frame.
pub proof fn cut_frame_is_eof(data: Seq<u8>, k: int)
    requires
        data.len() <= MAX_FRAME,
        0 <= k < frame_of(data).len(),
    ensures
        read_of(frame_of(data).take(k)).0 == Err::<Seq<u8>, FrameError>(FrameError::UnexpectedEof),
{
    lemma_le4(data.len());
    let b = frame_of(data).take(k);
    if k >= 4 {
        assert(b.take(4) == le4(data.len()));
    }
}

/// A frame above the cap is refused by its length alone: exactly the four
/// bytes of that are read, whatever follows them.
pub proof fn oversized_frame_is_left_unread(data: Seq<u8>, rest: Seq<u8>)
    requires
        MAX_FRAME < data.len() <= u32::MAX,
    ensures
        read_of(frame_of(data) + rest) == (
            Err::<Seq<u8>, FrameError>(FrameError::TooLong(data.len() as usize)),
            data + rest,
        ),
{
    lemma_le4(data.len());
    let b = frame_of(data) + rest;
    assert(b.take(4) == le4(data.len()));
    assert(b.skip(4) == data + rest);
}

/// The number that four bytes spell, the lowest first.
pub open spec fn four_bytes(a: u8, b: u8, c: u8, d: u8) -> nat {
    (a + 256 * b + 65_536 * c + 16_777_216 * d) as nat
}

/// A frame is written behind what is there: its length in four bytes, the
/// lowest first, and then all of its data.
pub proof fn a_frame_is_written_behind_its_length(w: &mut Vec<u8>, data: &[u8])
    requires
        call_ensures(write_frame_sync, (w, data), ()),
        data@.len() <= 4_294_967_295,
    ensures
        ({
            let k = old(w)@.len() as int;
            let after = final(w)@;
            &&& after.len() == k + 4 + data@.len()
            &&& after.take(k) == old(w)@
            &&& four_bytes(after[k], after[k + 1], after[k + 2], after[k + 3]) == data@.len()
            &&& after.skip(k + 4) == data@
        }),
{
    let k = old(w)@.len() as int;
    let n = data@.len();
    lemma_le4(n);
    assert(final(w)@.take(k) =~= old(w)@);
    assert(final(w)@.skip(k + 4) =~= data@);
    assert(le4_value(le4(n)) == n);
}

/// A length is accepted up to 262144 bytes.
pub proof fn a_length_is_read_exactly(prefix: [u8; 4], r: Result<usize, FrameError>)
    requires
        call_ensures(frame_len, (&prefix,), r),
    ensures
        ({
            let n = four_bytes(prefix@[0], prefix@[1], prefix@[2], prefix@[3]);
            &&& n <= 262_144 ==> (r matches Ok(len) && len == n)
            &&& n > 262_144 ==> (r matches Err(FrameError::TooLong(len)) && len == n)
        }),
{
}

/// A stream yields exactly the frame that it announces: so many bytes after
/// the first four, and nothing of what follows. One that announces too many is
/// left standing behind those four; one that ends too soon yields nothing.
pub proof fn a_frame_is_read_as_announced(
    b: &[u8],
    r: (Result<Vec<u8>, FrameError>, &[u8]),
    n: nat,
)
    requires
        call_ensures(read_frame_sync, (b,), r),
        b@.len() >= 4 ==> n == four_bytes(b@[0], b@[1], b@[2], b@[3]),
    ensures
        b@.len() < 4 ==> (r.0 matches Err(FrameError::UnexpectedEof)) && r.1@.len() == 0,
        b@.len() >= 4 && n > 262_144 ==> (r.0 matches Err(FrameError::TooLong(len)) && len == n)
            && r.1@ == b@.skip(4),
        b@.len() >= 4 && n <= 262_144 && b@.len() < 4 + n ==> (r.0 matches Err(
            FrameError::UnexpectedEof,
        )) && r.1@.len() == 0,
        b@.len() >= 4 && n <= 262_144 && b@.len() >= 4 + n ==> (r.0 matches Ok(data) && data@
            == b@.subrange(4, 4 + n as int)) && r.1@ == b@.skip(4 + n as int),
{
    if b@.len() >= 4 {
        let p = b@.take(4);
        assert(p[0] == b@[0] && p[1] == b@[1] && p[2] == b@[2] && p[3] == b@[3]);
        assert(le4_value(p) == n);
    }
}

/// What was written as a frame is read as that, and what follows it is left.
pub proof fn a_written_frame_is_read(
    w: &mut Vec<u8>,
    data: &[u8],
    b: &[u8],
    rest: Seq<u8>,
    r: (Result<Vec<u8>, FrameError>, &[u8]),
)
    requires
        old(w)@.len() == 0,
        call_ensures(write_frame_sync, (w, data), ()),
        data@.len() <= 262_144,
        b@ == final(w)@ + rest,
        call_ensures(read_frame_sync, (b,), r),
    ensures
        r.0 matches Ok(d) && d@ == data@,
        r.1@ == rest,
{
    frame_reads_back(data@, rest);
    assert(final(w)@ =~= frame_of(data@));
}

/// What is reported of a frame that is too long says how long it is.
pub proof fn a_frame_report_says_how_long(e: FrameError, r: String)
    requires
        call_ensures(FrameError::to_string, (&e,), r),
    ensures
        e matches FrameError::TooLong(len) ==> mentions(r@, dec(len as nat)),
{
    broadcast use crate::text::group_mentions;

}

} // verus!
