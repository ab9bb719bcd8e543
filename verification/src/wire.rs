//! The scalar encodings that messages on the wire are made of: variable-length
//! integers and length-prefixed text, as `postcard` writes and reads them.

use vstd::prelude::*;
use vstd::utf8::*;

verus! {

/// `n` in groups of seven bits, the lowest first, every byte but the last
/// with its top bit set.
pub open spec fn varint(n: nat) -> Seq<u8>
    decreases n,
{
    if n < 128 {
        seq![n as u8]
    } else {
        seq![(128 + n % 128) as u8] + varint(n / 128)
    }
}

/// The number at the start of `b`, at most `width` bytes long, and what
/// follows it. The byte in place `width`, if it comes to that, is at most
/// `last`.
pub open spec fn take_varint(b: Seq<u8>, width: nat, last: nat) -> Option<(nat, Seq<u8>)>
    decreases width,
{
    if width == 0 || b.len() == 0 {
        None
    } else if b[0] < 128 {
        if width == 1 && b[0] > last {
            None
        } else {
            Some((b[0] as nat, b.skip(1)))
        }
    } else {
        match take_varint(b.skip(1), (width - 1) as nat, last) {
            Some((n, rest)) => Some(((b[0] - 128) as nat + 128 * n, rest)),
            None => None,
        }
    }
}

/// The `u32` at the start of `b`.
pub open spec fn take_u32_of(b: Seq<u8>) -> Option<(nat, Seq<u8>)> {
    take_varint(b, 5, 15)
}

/// The `u64` at the start of `b`.
pub open spec fn take_u64_of(b: Seq<u8>) -> Option<(nat, Seq<u8>)> {
    take_varint(b, 10, 1)
}

/// The length at the start of `b`: a number of the width of a `usize`.
pub open spec fn take_len_of(b: Seq<u8>) -> Option<(nat, Seq<u8>)> {
    if usize::BITS == 32 {
        take_u32_of(b)
    } else {
        take_u64_of(b)
    }
}

/// Text as its number of bytes, then its UTF-8 bytes.
pub open spec fn text_bytes(s: Seq<char>) -> Seq<u8> {
    varint(encode_utf8(s).len()) + encode_utf8(s)
}

/// The text at the start of `b`.
pub open spec fn take_text_of(b: Seq<u8>) -> Option<(Seq<char>, Seq<u8>)> {
    match take_len_of(b) {
        Some((n, rest)) => if n <= rest.len() && valid_utf8(rest.take(n as int)) {
            Some((decode_utf8(rest.take(n as int)), rest.skip(n as int)))
        } else {
            None
        },
        None => None,
    }
}

/// The view of optional text.
pub open spec fn option_view(s: Option<String>) -> Option<Seq<char>> {
    match s {
        Some(t) => Some(t@),
        None => None,
    }
}

/// Optional text: a zero for nothing, or a one and then the text.
pub open spec fn option_bytes(s: Option<Seq<char>>) -> Seq<u8> {
    match s {
        None => seq![0u8],
        Some(t) => seq![1u8] + text_bytes(t),
    }
}

/// The optional text at the start of `b`.
pub open spec fn take_option_of(b: Seq<u8>) -> Option<(Option<Seq<char>>, Seq<u8>)> {
    if b.len() == 0 {
        None
    } else if b[0] == 0 {
        Some((None, b.skip(1)))
    } else if b[0] == 1 {
        match take_text_of(b.skip(1)) {
            Some((t, rest)) => Some((Some(t), rest)),
            None => None,
        }
    } else {
        None
    }
}

/// `postcard::to_stdvec` on a `u8` succeeds and gives that byte.
#[verifier::external_body]
pub(crate) fn put_u8(v: u8) -> (r: Option<Vec<u8>>)
    ensures
        r is Some,
        r.unwrap()@ == seq![v],
{
    postcard::to_stdvec(&v).ok()
}

/// `postcard::to_stdvec` on a `u32` succeeds and gives its `varint`.
#[verifier::external_body]
pub(crate) fn put_u32(v: u32) -> (r: Option<Vec<u8>>)
    ensures
        r is Some,
        r.unwrap()@ == varint(v as nat),
{
    postcard::to_stdvec(&v).ok()
}

/// `postcard::to_stdvec` on a `u64` succeeds and gives its `varint`.
#[verifier::external_body]
pub(crate) fn put_u64(v: u64) -> (r: Option<Vec<u8>>)
    ensures
        r is Some,
        r.unwrap()@ == varint(v as nat),
{
    postcard::to_stdvec(&v).ok()
}

/// `postcard::to_stdvec` on a `str` succeeds and gives the number of its
/// bytes as a `varint`, then the bytes.
#[verifier::external_body]
pub(crate) fn put_text(v: &str) -> (r: Option<Vec<u8>>)
    ensures
        r is Some,
        r.unwrap()@ == text_bytes(v@),
{
    postcard::to_stdvec(v).ok()
}

/// `postcard::to_stdvec` on an `Option<String>` succeeds and gives a zero for
/// nothing, or a one and then the text.
#[verifier::external_body]
pub(crate) fn put_option(v: &Option<String>) -> (r: Option<Vec<u8>>)
    ensures
        r is Some,
        r.unwrap()@ == option_bytes(option_view(*v)),
{
    postcard::to_stdvec(v).ok()
}

/// What is reported of bytes that end too soon.
pub open spec fn ended() -> Seq<char> {
    "Hit the end of buffer, expected more data"@
}

/// What is reported of a number that is too long or too large.
pub open spec fn endless() -> Seq<char> {
    "Found a varint that didn't terminate. Is the usize too big for this platform?"@
}

/// What is reported of text that is no UTF-8.
pub open spec fn no_text() -> Seq<char> {
    "Tried to parse invalid utf-8"@
}

/// What is reported of an optional value that is neither there nor not.
pub open spec fn no_option() -> Seq<char> {
    "Found an Option discriminant that wasn't 0 or 1"@
}

/// What is reported of a tag that stands for nothing.
pub open spec fn no_variant() -> Seq<char> {
    "Serde Deserialization Error"@
}

/// What is reported where no number of at most `width` bytes starts `b`.
pub open spec fn varint_fault(b: Seq<u8>, width: nat) -> Seq<char>
    decreases width,
{
    if width == 0 {
        endless()
    } else if b.len() == 0 {
        ended()
    } else if b[0] < 128 {
        endless()
    } else {
        varint_fault(b.skip(1), (width - 1) as nat)
    }
}

/// What is reported where no `u32` starts `b`.
pub open spec fn u32_fault(b: Seq<u8>) -> Seq<char> {
    varint_fault(b, 5)
}

/// What is reported where no `u64` starts `b`.
pub open spec fn u64_fault(b: Seq<u8>) -> Seq<char> {
    varint_fault(b, 10)
}

/// What is reported where no text starts `b`.
pub open spec fn text_fault(b: Seq<u8>) -> Seq<char> {
    match take_len_of(b) {
        None => if usize::BITS == 32 {
            u32_fault(b)
        } else {
            u64_fault(b)
        },
        Some((n, rest)) => if n <= rest.len() {
            no_text()
        } else {
            ended()
        },
    }
}

/// What is reported where no optional text starts `b`.
pub open spec fn option_fault(b: Seq<u8>) -> Seq<char> {
    if b.len() == 0 {
        ended()
    } else if b[0] == 1 {
        text_fault(b.skip(1))
    } else {
        no_option()
    }
}

/// `postcard::take_from_bytes` reads a `u8`, the first byte, and hands back
/// the bytes after it. It fails only where there is no byte, and its error
/// says so.
#[verifier::external_body]
pub(crate) fn take_u8(b: &[u8]) -> (r: Result<(u8, &[u8]), String>)
    ensures
        if b@.len() == 0 {
            r matches Err(e) && e@ == ended()
        } else {
            r matches Ok((v, tail)) && v == b@[0] && tail@ == b@.skip(1)
        },
{
    postcard::take_from_bytes::<u8>(b).map_err(|e| e.to_string())
}

/// What `postcard::Error::SerdeDeCustom` says, which is the error that a tag
/// without a variant gets.
#[verifier::external_body]
pub(crate) fn unknown_variant() -> (r: String)
    ensures
        r@ == no_variant(),
{
    postcard::Error::SerdeDeCustom.to_string()
}

/// `postcard::take_from_bytes` reads a `u32` of at most five bytes, the fifth
/// at most 15, and hands back the bytes after it. On all else it fails, and
/// its error tells bytes that end too soon from a number that does not fit.
#[verifier::external_body]
pub(crate) fn take_u32(b: &[u8]) -> (r: Result<(u32, &[u8]), String>)
    ensures
        match take_u32_of(b@) {
            Some((n, rest)) => r matches Ok((v, tail)) && v == n && tail@ == rest,
            None => r matches Err(e) && e@ == u32_fault(b@),
        },
{
    postcard::take_from_bytes::<u32>(b).map_err(|e| e.to_string())
}

/// `postcard::take_from_bytes` reads a `u64` of at most ten bytes, the tenth
/// at most 1, and hands back the bytes after it. On all else it fails, and
/// its error tells bytes that end too soon from a number that does not fit.
#[verifier::external_body]
pub(crate) fn take_u64(b: &[u8]) -> (r: Result<(u64, &[u8]), String>)
    ensures
        match take_u64_of(b@) {
            Some((n, rest)) => r matches Ok((v, tail)) && v == n && tail@ == rest,
            None => r matches Err(e) && e@ == u64_fault(b@),
        },
{
    postcard::take_from_bytes::<u64>(b).map_err(|e| e.to_string())
}

/// `postcard::take_from_bytes` reads a `String`: a length, then that many
/// bytes, which have to be there and be UTF-8. It hands back the bytes after
/// them. On all else it fails, and its error says which of these was amiss.
#[verifier::external_body]
pub(crate) fn take_text(b: &[u8]) -> (r: Result<(String, &[u8]), String>)
    ensures
        match take_text_of(b@) {
            Some((s, rest)) => r matches Ok((v, tail)) && v@ == s && tail@ == rest,
            None => r matches Err(e) && e@ == text_fault(b@),
        },
{
    postcard::take_from_bytes::<String>(b).map_err(|e| e.to_string())
}

/// `postcard::take_from_bytes` reads an `Option<String>`: a zero for nothing,
/// or a one and then the text. It hands back the bytes after that. On all
/// else it fails, and its error says what was amiss.
#[verifier::external_body]
pub(crate) fn take_option(b: &[u8]) -> (r: Result<(Option<String>, &[u8]), String>)
    ensures
        match take_option_of(b@) {
            Some((s, rest)) => r matches Ok((v, tail)) && option_view(v) == s && tail@ == rest,
            None => r matches Err(e) && e@ == option_fault(b@),
        },
{
    postcard::take_from_bytes::<Option<String>>(b).map_err(|e| e.to_string())
}

/// One more than the largest number that `width` bytes can spell when the
/// last is at most `last`.
spec fn capacity(width: nat, last: nat) -> nat
    decreases width,
{
    if width <= 1 {
        last + 1
    } else {
        128 * capacity((width - 1) as nat, last)
    }
}

proof fn lemma_take_varint(n: nat, rest: Seq<u8>, width: nat, last: nat)
    requires
        width >= 1,
        last < 128,
        n < capacity(width, last),
    ensures
        take_varint(varint(n) + rest, width, last) == Some((n, rest)),
    decreases n,
{
    let b = varint(n) + rest;
    if n < 128 {
        assert(b[0] == n);
        assert(b.skip(1) == rest);
    } else {
        assert(width > 1);
        assert(n / 128 < capacity((width - 1) as nat, last));
        lemma_take_varint(n / 128, rest, (width - 1) as nat, last);
        assert(b[0] == 128 + n % 128);
        assert(b.skip(1) == varint(n / 128) + rest);
    }
}

/// A `u32` written to the wire reads back as itself, whatever follows it.
pub proof fn u32_reads_back(v: u32, rest: Seq<u8>)
    ensures
        take_u32_of(varint(v as nat) + rest) == Some((v as nat, rest)),
{
    reveal_with_fuel(capacity, 6);
    lemma_take_varint(v as nat, rest, 5, 15);
}

/// A `u64` written to the wire reads back as itself, whatever follows it.
pub proof fn u64_reads_back(v: u64, rest: Seq<u8>)
    ensures
        take_u64_of(varint(v as nat) + rest) == Some((v as nat, rest)),
{
    reveal_with_fuel(capacity, 11);
    lemma_take_varint(v as nat, rest, 10, 1);
}

/// Text written to the wire reads back as itself, whatever follows it, as
/// long as its length is one that memory can hold.
pub proof fn text_reads_back(s: Seq<char>, rest: Seq<u8>)
    requires
        encode_utf8(s).len() <= usize::MAX,
    ensures
        take_text_of(text_bytes(s) + rest) == Some((s, rest)),
{
    let bytes = encode_utf8(s);
    let tail = bytes + rest;
    assert(text_bytes(s) + rest == varint(bytes.len()) + tail);
    if usize::BITS == 32 {
        u32_reads_back(bytes.len() as u32, tail);
    } else {
        u64_reads_back(bytes.len() as u64, tail);
    }
    assert(tail.take(bytes.len() as int) == bytes);
    assert(tail.skip(bytes.len() as int) == rest);
    encode_utf8_valid_utf8(s);
    encode_utf8_decode_utf8(s);
}

/// Optional text written to the wire reads back as itself, whatever follows
/// it, as long as its length is one that memory can hold.
pub proof fn option_reads_back(s: Option<Seq<char>>, rest: Seq<u8>)
    requires
        s matches Some(t) ==> encode_utf8(t).len() <= usize::MAX,
    ensures
        take_option_of(option_bytes(s) + rest) == Some((s, rest)),
{
    let b = option_bytes(s) + rest;
    match s {
        None => {
            assert(b.skip(1) =~= rest);
        },
        Some(t) => {
            assert(b.skip(1) =~= text_bytes(t) + rest);
            text_reads_back(t, rest);
        },
    }
}

} // verus!
