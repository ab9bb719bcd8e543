//! Text building blocks: decimal and hexadecimal rendering, trimming and
//! comparisons, each with an exact statement over `Seq<char>`.

use vstd::prelude::*;
use vstd::string::*;
use vstd::utf8::*;

verus! {

/// `std`'s `String::push` appends one character to the end of the string.
pub assume_specification[ String::push ](s: &mut String, c: char)
    ensures
        final(s)@ == old(s)@.push(c),
;

/// The text that bytes stand for, with what is no UTF-8 replaced.
pub uninterp spec fn lossy(b: Seq<u8>) -> Seq<char>;

/// `std`'s `String::from_utf8_lossy`: the text that the bytes stand for. Bytes
/// that are UTF-8 are decoded as they are; how others are replaced is not
/// stated here.
#[verifier::external_body]
pub(crate) fn decode(b: &[u8]) -> (r: String)
    ensures
        r@ == lossy(b@),
        valid_utf8(b@) ==> r@ == decode_utf8(b@),
{
    String::from_utf8_lossy(b).into_owned()
}

/// The decimal digit `d` as a character.
pub open spec fn digit(d: nat) -> char
    recommends
        d < 10,
{
    (48 + d) as char
}

/// `n` in decimal, without leading zeros.
pub open spec fn dec(n: nat) -> Seq<char>
    decreases n,
{
    if n < 10 {
        seq![digit(n)]
    } else {
        dec(n / 10).push(digit(n % 10))
    }
}

/// Appends `n` in decimal.
pub fn push_dec(out: &mut String, n: u128)
    ensures
        final(out)@ == old(out)@ + dec(n as nat),
    decreases n,
{
    if n < 10 {
        out.push((48u8 + n as u8) as char);
    } else {
        push_dec(out, n / 10);
        out.push((48u8 + (n % 10) as u8) as char);
    }
}

/// `c` carries the Unicode `White_Space` property.
pub open spec fn is_white(c: char) -> bool {
    ||| '\u{9}' <= c <= '\u{d}'
    ||| c == ' '
    ||| c == '\u{85}'
    ||| c == '\u{a0}'
    ||| c == '\u{1680}'
    ||| '\u{2000}' <= c <= '\u{200a}'
    ||| c == '\u{2028}'
    ||| c == '\u{2029}'
    ||| c == '\u{202f}'
    ||| c == '\u{205f}'
    ||| c == '\u{3000}'
}

/// Whether `c` is white space.
pub fn white(c: char) -> (r: bool)
    ensures
        r == is_white(c),
{
    ('\u{9}' <= c && c <= '\u{d}') || c == ' ' || c == '\u{85}' || c == '\u{a0}' || c == '\u{1680}'
        || ('\u{2000}' <= c && c <= '\u{200a}') || c == '\u{2028}' || c == '\u{2029}' || c
        == '\u{202f}' || c == '\u{205f}' || c == '\u{3000}'
}

/// Every character of `s` is white space.
pub open spec fn blank(s: Seq<char>) -> bool {
    forall|i: int| 0 <= i < s.len() ==> is_white(#[trigger] s[i])
}

/// The characters of `s`, in order.
pub fn chars_of(s: &str) -> (r: Vec<char>)
    ensures
        r@ == s@,
{
    let mut r: Vec<char> = Vec::new();
    for c in it: s.chars()
        invariant
            it.seq() == s@,
            r@ == s@.take(it.index()),
    {
        r.push(c);
    }
    assert(s@.take(s@.len() as int) == s@);
    r
}

/// The string made of `chars[from..to]`.
pub fn string_of(chars: &Vec<char>, from: usize, to: usize) -> (r: String)
    requires
        from <= to <= chars@.len(),
    ensures
        r@ == chars@.subrange(from as int, to as int),
{
    let mut r = String::new();
    let mut i = from;
    while i < to
        invariant
            from <= i <= to <= chars@.len(),
            r@ == chars@.subrange(from as int, i as int),
        decreases to - i,
    {
        r.push(chars[i]);
        i += 1;
    }
    r
}

/// Whether `s` is empty once trimmed.
pub fn is_blank(s: &str) -> (r: bool)
    ensures
        r == blank(s@),
{
    let chars = chars_of(s);
    let mut i: usize = 0;
    while i < chars.len()
        invariant
            chars@ == s@,
            i <= chars@.len(),
            forall|k: int| 0 <= k < i ==> is_white(#[trigger] s@[k]),
        decreases chars.len() - i,
    {
        if !white(chars[i]) {
            return false;
        }
        i += 1;
    }
    true
}

/// `s` without its trailing white space.
pub open spec fn trimmed_end(s: Seq<char>) -> Seq<char>
    decreases s.len(),
{
    if s.len() > 0 && is_white(s.last()) {
        trimmed_end(s.drop_last())
    } else {
        s
    }
}

/// `s` without its leading white space.
pub open spec fn trimmed_start(s: Seq<char>) -> Seq<char>
    decreases s.len(),
{
    if s.len() > 0 && is_white(s[0]) {
        trimmed_start(s.skip(1))
    } else {
        s
    }
}

/// `s` without the white space around it.
pub open spec fn trimmed(s: Seq<char>) -> Seq<char> {
    trimmed_start(trimmed_end(s))
}

/// Trims trailing white space.
pub fn trim_end(s: &str) -> (r: String)
    ensures
        r@ == trimmed_end(s@),
{
    let chars = chars_of(s);
    let mut to: usize = chars.len();
    assert(chars@.take(chars@.len() as int) == chars@);
    while to > 0 && white(chars[to - 1])
        invariant
            to <= chars@.len(),
            trimmed_end(chars@) == trimmed_end(chars@.take(to as int)),
        decreases to,
    {
        assert(chars@.take(to as int).drop_last() == chars@.take(to - 1));
        to -= 1;
    }
    string_of(&chars, 0, to)
}

/// Trims white space on both sides.
pub fn trim(s: &str) -> (r: String)
    ensures
        r@ == trimmed(s@),
{
    let end = trim_end(s);
    let chars = chars_of(end.as_str());
    let mut from: usize = 0;
    assert(chars@.skip(0) == chars@);
    while from < chars.len() && white(chars[from])
        invariant
            from <= chars@.len(),
            trimmed_start(chars@) == trimmed_start(chars@.skip(from as int)),
        decreases chars.len() - from,
    {
        assert(chars@.skip(from as int).skip(1) == chars@.skip(from + 1));
        from += 1;
    }
    assert(chars@.skip(from as int) == chars@.subrange(from as int, chars@.len() as int));
    string_of(&chars, from, chars.len())
}

/// Trimming leaves nothing exactly when there is only white space.
pub proof fn lemma_trimmed_empty(s: Seq<char>)
    ensures
        (trimmed(s).len() == 0) == blank(s),
{
    lemma_trimmed_end(s);
    lemma_trimmed_start(trimmed_end(s));
    let e = trimmed_end(s);
    if blank(s) {
        assert(e.len() == 0);
    }
    if e.len() > 0 {
        assert(!is_white(e.last()));
        assert(!blank(e));
        assert(s[e.len() - 1] == e.last());
    } else {
        assert(blank(s));
    }
}

/// Trimmed text is blank exactly when the text was.
pub proof fn lemma_trimmed_says_as_much(s: Seq<char>)
    ensures
        blank(trimmed(s)) == blank(s),
{
    lemma_trimmed_empty(s);
    lemma_trimmed_end(s);
    lemma_start_not_white(trimmed_end(s));
    let t = trimmed(s);
    if t.len() > 0 {
        assert(!is_white(t[0]));
    }
}

proof fn lemma_start_not_white(s: Seq<char>)
    ensures
        trimmed_start(s).len() > 0 ==> !is_white(trimmed_start(s)[0]),
    decreases s.len(),
{
    if s.len() > 0 && is_white(s[0]) {
        lemma_start_not_white(s.skip(1));
    }
}

proof fn lemma_trimmed_end(s: Seq<char>)
    ensures
        trimmed_end(s).len() <= s.len(),
        trimmed_end(s) == s.take(trimmed_end(s).len() as int),
        trimmed_end(s).len() > 0 ==> !is_white(trimmed_end(s).last()),
        forall|i: int| trimmed_end(s).len() <= i < s.len() ==> is_white(#[trigger] s[i]),
    decreases s.len(),
{
    if s.len() > 0 && is_white(s.last()) {
        lemma_trimmed_end(s.drop_last());
        assert forall|i: int| trimmed_end(s).len() <= i < s.len() implies is_white(
            #[trigger] s[i],
        ) by {
            if i < s.len() - 1 {
                assert(s.drop_last()[i] == s[i]);
            }
        }
    } else {
        assert(s.take(s.len() as int) == s);
    }
}

proof fn lemma_trimmed_start(s: Seq<char>)
    ensures
        (trimmed_start(s).len() == 0) == blank(s),
    decreases s.len(),
{
    if s.len() > 0 && is_white(s[0]) {
        lemma_trimmed_start(s.skip(1));
        if blank(s) {
            assert(blank(s.skip(1)));
        }
        if blank(s.skip(1)) {
            assert forall|i: int| 0 <= i < s.len() implies is_white(#[trigger] s[i]) by {
                if i > 0 {
                    assert(s.skip(1)[i - 1] == s[i]);
                }
            }
        }
    }
}

/// Strings with equal UTF-8 bytes are equal.
pub proof fn lemma_utf8_injective(a: Seq<char>, b: Seq<char>)
    requires
        encode_utf8(a) == encode_utf8(b),
    ensures
        a == b,
{
    encode_utf8_decode_utf8(a);
    encode_utf8_decode_utf8(b);
}

/// Whether two strings are equal.
pub fn same(a: &str, b: &str) -> (r: bool)
    ensures
        r == (a@ == b@),
{
    let x = a.as_bytes();
    let y = b.as_bytes();
    if x.len() != y.len() {
        return false;
    }
    let mut i: usize = 0;
    while i < x.len()
        invariant
            x@ == encode_utf8(a@),
            y@ == encode_utf8(b@),
            x@.len() == y@.len(),
            i <= x@.len(),
            x@.take(i as int) == y@.take(i as int),
        decreases x.len() - i,
    {
        if x[i] != y[i] {
            return false;
        }
        assert(x@.take(i + 1) == x@.take(i as int).push(x@[i as int]));
        assert(y@.take(i + 1) == y@.take(i as int).push(y@[i as int]));
        i += 1;
    }
    proof {
        assert(x@.take(i as int) == x@);
        assert(y@.take(i as int) == y@);
        lemma_utf8_injective(a@, b@);
    }
    true
}

/// The texts of a list of strings.
pub open spec fn texts(v: Seq<String>) -> Seq<Seq<char>> {
    v.map_values(|s: String| s@)
}

/// `a`, then `b`.
pub fn join(a: &str, b: &str) -> (r: String)
    ensures
        r@ == a@ + b@,
{
    let mut out = a.to_owned();
    out.append(b);
    out
}

/// `before`, `middle` and `after` in a row.
pub fn wrap(before: &str, middle: &str, after: &str) -> (r: String)
    ensures
        r@ == before@ + middle@ + after@,
{
    let mut out = before.to_owned();
    out.append(middle);
    out.append(after);
    out
}

/// `c` with an ASCII capital letter turned into its small letter.
pub open spec fn ascii_lower(c: char) -> char {
    if 'A' <= c <= 'Z' {
        ((c as u32) + 32) as char
    } else {
        c
    }
}

/// `a` and `b` differ at most in the case of ASCII letters.
pub open spec fn same_ignoring_case(a: Seq<char>, b: Seq<char>) -> bool {
    a.map_values(|c: char| ascii_lower(c)) == b.map_values(|c: char| ascii_lower(c))
}

fn lower(c: char) -> (r: char)
    ensures
        r == ascii_lower(c),
{
    if 'A' <= c && c <= 'Z' {
        (c as u8 + 32) as char
    } else {
        c
    }
}

/// Compares two strings, ignoring the case of ASCII letters.
pub fn eq_ignore_case(a: &str, b: &str) -> (r: bool)
    ensures
        r == same_ignoring_case(a@, b@),
{
    let x = chars_of(a);
    let y = chars_of(b);
    let ghost p = a@.map_values(|c: char| ascii_lower(c));
    let ghost q = b@.map_values(|c: char| ascii_lower(c));
    if x.len() != y.len() {
        assert(p.len() != q.len());
        return false;
    }
    let mut i: usize = 0;
    while i < x.len()
        invariant
            x@ == a@,
            y@ == b@,
            x@.len() == y@.len(),
            i <= x@.len(),
            p == a@.map_values(|c: char| ascii_lower(c)),
            q == b@.map_values(|c: char| ascii_lower(c)),
            forall|k: int| 0 <= k < i ==> p[k] == q[k],
        decreases x.len() - i,
    {
        if lower(x[i]) != lower(y[i]) {
            assert(p[i as int] != q[i as int]);
            return false;
        }
        i += 1;
    }
    assert(p =~= q);
    true
}

/// The upper-case hexadecimal digit `d`.
pub open spec fn hex_digit(d: nat) -> char
    recommends
        d < 16,
{
    if d < 10 {
        digit(d)
    } else {
        (55 + d) as char
    }
}

/// The last `width` upper-case hexadecimal digits of `n`.
pub open spec fn hex(n: nat, width: nat) -> Seq<char>
    decreases width,
{
    if width == 0 {
        seq![]
    } else {
        hex(n / 16, (width - 1) as nat).push(hex_digit(n % 16))
    }
}

fn push_hex(out: &mut String, n: u64, width: u8)
    ensures
        final(out)@ == old(out)@ + hex(n as nat, width as nat),
    decreases width,
{
    if width > 0 {
        push_hex(out, n / 16, width - 1);
        let d: u8 = (n % 16) as u8;
        if d < 10 {
            out.push((48 + d) as char);
        } else {
            out.push((55 + d) as char);
        }
    }
}

/// A 64-bit id as sixteen upper-case hexadecimal digits.
pub fn hex16(n: u64) -> (r: String)
    ensures
        r@ == hex(n as nat, 16),
{
    let mut out = String::new();
    push_hex(&mut out, n, 16);
    out
}

/// `c` is an ASCII hexadecimal digit.
pub open spec fn is_hex_digit(c: char) -> bool {
    ('0' <= c <= '9') || ('a' <= c <= 'f') || ('A' <= c <= 'F')
}

/// Every character of `s` is an ASCII hexadecimal digit.
pub open spec fn all_hex(s: Seq<char>) -> bool {
    forall|i: int| 0 <= i < s.len() ==> is_hex_digit(#[trigger] s[i])
}

/// Whether `chars[from..]` holds hexadecimal digits only.
pub fn hex_from(chars: &Vec<char>, from: usize) -> (r: bool)
    requires
        from <= chars@.len(),
    ensures
        r == all_hex(chars@.skip(from as int)),
{
    let ghost tail = chars@.skip(from as int);
    let mut i: usize = from;
    while i < chars.len()
        invariant
            from <= i <= chars@.len(),
            tail == chars@.skip(from as int),
            forall|k: int| 0 <= k < i - from ==> is_hex_digit(#[trigger] tail[k]),
        decreases chars.len() - i,
    {
        let c = chars[i];
        if !(('0' <= c && c <= '9') || ('a' <= c && c <= 'f') || ('A' <= c && c <= 'F')) {
            assert(!is_hex_digit(tail[i - from]));
            return false;
        }
        i += 1;
    }
    true
}

/// `c` is a decimal digit.
pub open spec fn is_dec_digit(c: char) -> bool {
    '0' <= c <= '9'
}

/// The number that the decimal digits `s` spell.
pub open spec fn dec_value(s: Seq<char>) -> nat
    decreases s.len(),
{
    if s.len() == 0 {
        0
    } else {
        dec_value(s.drop_last()) * 10 + (s.last() as nat - 48) as nat
    }
}

/// The digits of a number: what follows an optional plus sign.
pub open spec fn unsigned_digits(s: Seq<char>) -> Seq<char> {
    if s.len() > 0 && s[0] == '+' {
        s.skip(1)
    } else {
        s
    }
}

/// The `u64` that `s` spells: an optional plus sign, then one or more decimal
/// digits, nothing else, within range.
pub open spec fn parsed_u64(s: Seq<char>) -> Option<u64> {
    let d = unsigned_digits(s);
    if d.len() > 0 && (forall|i: int| 0 <= i < d.len() ==> is_dec_digit(#[trigger] d[i]))
        && dec_value(d) <= u64::MAX {
        Some(dec_value(d) as u64)
    } else {
        None
    }
}

proof fn lemma_dec_value_prefix(d: Seq<char>, i: int)
    requires
        0 <= i <= d.len(),
        forall|k: int| 0 <= k < d.len() ==> is_dec_digit(#[trigger] d[k]),
    ensures
        dec_value(d.take(i)) <= dec_value(d),
    decreases d.len() - i,
{
    if i < d.len() {
        lemma_dec_value_prefix(d, i + 1);
        assert(d.take(i + 1).drop_last() == d.take(i));
    } else {
        assert(d.take(i) == d);
    }
}

/// Parses an unsigned decimal number.
pub fn parse_u64(s: &str) -> (r: Option<u64>)
    ensures
        r == parsed_u64(s@),
{
    let chars = chars_of(s);
    let start: usize = if chars.len() > 0 && chars[0] == '+' { 1 } else { 0 };
    let ghost d = unsigned_digits(s@);
    assert(d == chars@.skip(start as int));
    if start == chars.len() {
        return None;
    }
    let mut i: usize = start;
    let mut value: u128 = 0;
    assert(d.take(0) == Seq::<char>::empty());
    while i < chars.len()
        invariant
            start <= i <= chars@.len(),
            d == chars@.skip(start as int),
            d == unsigned_digits(s@),
            forall|k: int| 0 <= k < i - start ==> is_dec_digit(#[trigger] d[k]),
            value == dec_value(d.take(i - start)),
            value <= u64::MAX,
        decreases chars.len() - i,
    {
        let c = chars[i];
        assert(d[i - start] == c);
        if !('0' <= c && c <= '9') {
            return None;
        }
        assert(d.take(i + 1 - start).drop_last() == d.take(i - start));
        value = value * 10 + (c as u8 - 48) as u128;
        i += 1;
        if value > u64::MAX as u128 {
            proof {
                if forall|k: int| 0 <= k < d.len() ==> is_dec_digit(#[trigger] d[k]) {
                    lemma_dec_value_prefix(d, i - start);
                }
            }
            return None;
        }
    }
    assert(d.take(i - start) == d);
    Some(value as u64)
}

/// `s` padded on the left with blanks to at least `width` characters.
pub open spec fn pad_left(s: Seq<char>, width: nat) -> Seq<char> {
    if s.len() < width {
        Seq::new((width - s.len()) as nat, |i: int| ' ') + s
    } else {
        s
    }
}

/// A number of microseconds as milliseconds with three decimals.
pub open spec fn millis(us: nat) -> Seq<char> {
    dec(us / 1000).push('.').push(digit(us / 100 % 10)).push(digit(us / 10 % 10)).push(
        digit(us % 10),
    )
}

/// Renders microseconds as milliseconds, right-aligned in ten columns.
pub fn millis_column(us: u128) -> (r: String)
    ensures
        r@ == pad_left(millis(us as nat), 10),
{
    let mut body = String::new();
    push_dec(&mut body, us / 1000);
    assert(body@ == dec(us as nat / 1000));
    body.push('.');
    body.push((48u8 + (us / 100 % 10) as u8) as char);
    body.push((48u8 + (us / 10 % 10) as u8) as char);
    body.push((48u8 + (us % 10) as u8) as char);
    let len: usize = chars_of(body.as_str()).len();
    let mut out = String::new();
    let mut n: usize = len;
    while n < 10
        invariant
            len == body@.len(),
            len <= n,
            n <= 10 || n == len,
            out@ == Seq::new((n - len) as nat, |i: int| ' '),
        decreases 10 - n,
    {
        out.push(' ');
        n += 1;
    }
    out.append(body.as_str());
    assert(len >= 10 ==> out@ =~= body@);
    out
}

/// The last `width` decimal digits of `n`.
pub open spec fn padded(n: nat, width: nat) -> Seq<char>
    decreases width,
{
    if width == 0 {
        seq![]
    } else {
        padded(n / 10, (width - 1) as nat).push(digit(n % 10))
    }
}

/// The decimals of `f` units of the `width`-th decimal place, without
/// trailing zeros.
pub open spec fn decimals(f: nat, width: nat) -> Seq<char>
    decreases width,
{
    if f % 10 == 0 && width > 0 {
        decimals(f / 10, (width - 1) as nat)
    } else {
        padded(f, width)
    }
}

/// A decimal number: `whole`, then, unless `f` is zero, a point and the
/// decimals of `f`.
pub open spec fn decimal(whole: nat, f: nat, width: nat) -> Seq<char> {
    if f == 0 {
        dec(whole)
    } else {
        dec(whole).push('.') + decimals(f, width)
    }
}

/// A time span of `ns` nanoseconds, in the largest unit that fits.
pub open spec fn span(ns: nat) -> Seq<char> {
    if ns >= 1_000_000_000 {
        decimal(ns / 1_000_000_000, ns % 1_000_000_000, 9).push('s')
    } else if ns >= 1_000_000 {
        decimal(ns / 1_000_000, ns % 1_000_000, 6).push('m').push('s')
    } else if ns >= 1_000 {
        decimal(ns / 1_000, ns % 1_000, 3).push('\u{b5}').push('s')
    } else {
        dec(ns).push('n').push('s')
    }
}

fn push_padded(out: &mut String, n: u128, width: u8)
    ensures
        final(out)@ == old(out)@ + padded(n as nat, width as nat),
    decreases width,
{
    if width > 0 {
        push_padded(out, n / 10, width - 1);
        out.push((48u8 + (n % 10) as u8) as char);
    }
}

fn push_decimals(out: &mut String, f: u128, width: u8)
    ensures
        final(out)@ == old(out)@ + decimals(f as nat, width as nat),
    decreases width,
{
    if f % 10 == 0 && width > 0 {
        push_decimals(out, f / 10, width - 1);
    } else {
        push_padded(out, f, width);
    }
}

fn push_decimal(out: &mut String, whole: u128, f: u128, width: u8)
    ensures
        final(out)@ == old(out)@ + decimal(whole as nat, f as nat, width as nat),
{
    push_dec(out, whole);
    if f != 0 {
        out.push('.');
        push_decimals(out, f, width);
    }
}

/// Renders a time span given in nanoseconds.
pub fn show_span(ns: u128) -> (r: String)
    ensures
        r@ == span(ns as nat),
{
    let mut out = String::new();
    if ns >= 1_000_000_000 {
        push_decimal(&mut out, ns / 1_000_000_000, ns % 1_000_000_000, 9);
    } else if ns >= 1_000_000 {
        push_decimal(&mut out, ns / 1_000_000, ns % 1_000_000, 6);
        out.push('m');
    } else if ns >= 1_000 {
        push_decimal(&mut out, ns / 1_000, ns % 1_000, 3);
        out.push('\u{b5}');
    } else {
        push_dec(&mut out, ns);
        out.push('n');
    }
    out.push('s');
    out
}

/// `part` stands in `s` at index `i`.
pub open spec fn stands_at(s: Seq<char>, part: Seq<char>, i: int) -> bool {
    &&& 0 <= i
    &&& i + part.len() <= s.len()
    &&& s.subrange(i, i + part.len()) == part
}

/// `part` stands somewhere in `s`.
pub open spec fn mentions(s: Seq<char>, part: Seq<char>) -> bool {
    exists|i: int| #[trigger] stands_at(s, part, i)
}

/// Every text mentions itself.
pub broadcast proof fn lemma_mentions_itself(s: Seq<char>)
    ensures
        #[trigger] mentions(s, s),
{
    assert(s.subrange(0, s.len() as int) =~= s);
    assert(stands_at(s, s, 0));
}

/// Two texts in a row mention what either of them does.
pub broadcast proof fn lemma_mentions_either(a: Seq<char>, b: Seq<char>, part: Seq<char>)
    ensures
        mentions(a, part) || mentions(b, part) ==> #[trigger] mentions(a + b, part),
{
    let s = a + b;
    if mentions(a, part) {
        let i = choose|i: int| #[trigger] stands_at(a, part, i);
        assert(s.subrange(i, i + part.len()) =~= a.subrange(i, i + part.len()));
        assert(stands_at(s, part, i));
    }
    if mentions(b, part) {
        let i = choose|i: int| #[trigger] stands_at(b, part, i);
        let k = a.len() + i;
        assert(s.subrange(k, k + part.len()) =~= b.subrange(i, i + part.len()));
        assert(stands_at(s, part, k));
    }
}

/// What texts in a row mention.
pub broadcast group group_mentions {
    lemma_mentions_itself,
    lemma_mentions_either,
}

/// The value of a decimal or hexadecimal digit, of either case.
pub open spec fn digit_value(c: char) -> nat {
    if '0' <= c <= '9' {
        (c as int - '0' as int) as nat
    } else if 'a' <= c <= 'f' {
        (c as int - 'a' as int + 10) as nat
    } else if 'A' <= c <= 'F' {
        (c as int - 'A' as int + 10) as nat
    } else {
        0
    }
}

/// The number that the digits `s` spell to the base `base`.
pub open spec fn spelled(s: Seq<char>, base: nat) -> nat
    decreases s.len(),
{
    if s.len() == 0 {
        0
    } else {
        spelled(s.drop_last(), base) * base + digit_value(s.last())
    }
}

/// Decimal digits spell the number they were made of, without leading zeros.
pub proof fn decimals_spell_the_number(n: nat)
    ensures
        dec(n).len() > 0,
        forall|i: int| 0 <= i < dec(n).len() ==> '0' <= #[trigger] dec(n)[i] <= '9',
        spelled(dec(n), 10) == n,
        dec(n)[0] == '0' ==> n == 0,
    decreases n,
{
    let s = dec(n);
    if n < 10 {
        assert(s.drop_last() =~= Seq::<char>::empty());
        assert(spelled(s.drop_last(), 10) == 0);
        assert(s.last() == s[0]);
    } else {
        decimals_spell_the_number(n / 10);
        let p = dec(n / 10);
        assert(s.drop_last() =~= p);
        assert forall|i: int| 0 <= i < s.len() implies '0' <= #[trigger] s[i] <= '9' by {
            if i < p.len() {
                assert(s[i] == p[i]);
            }
        }
        assert(s[0] == p[0]);
    }
}

/// Sixteen hexadecimal digits spell the id that they were made of.
pub proof fn an_id_is_spelled_in_hex(n: u64, r: String)
    requires
        call_ensures(hex16, (n,), r),
    ensures
        r@.len() == 16,
        forall|i: int|
            0 <= i < 16 ==> ('0' <= #[trigger] r@[i] <= '9') || ('A' <= r@[i] <= 'F'),
        spelled(r@, 16) == n,
{
    lemma_hex_spelled(n as nat, 16);
    reveal_with_fuel(power16, 17);
}

/// 16 to the power of `k`.
pub open spec fn power16(k: nat) -> nat
    decreases k,
{
    if k == 0 {
        1
    } else {
        16 * power16((k - 1) as nat)
    }
}

pub proof fn lemma_hex_spelled(n: nat, width: nat)
    ensures
        hex(n, width).len() == width,
        forall|i: int|
            0 <= i < width ==> ('0' <= #[trigger] hex(n, width)[i] <= '9') || ('A' <= hex(
                n,
                width,
            )[i] <= 'F'),
        n < power16(width) ==> spelled(hex(n, width), 16) == n,
    decreases width,
{
    if width > 0 {
        let w = (width - 1) as nat;
        lemma_hex_spelled(n / 16, w);
        let s = hex(n, width);
        let p = hex(n / 16, w);
        assert(s.drop_last() =~= p);
        assert forall|i: int| 0 <= i < width implies ('0' <= #[trigger] s[i] <= '9') || ('A' <= s[i]
            <= 'F') by {
            if i < w {
                assert(s[i] == p[i]);
            }
        }
        assert(digit_value(s.last()) == n % 16);
    }
}

/// A number is read exactly: after an optional plus sign, one or more decimal
/// digits and nothing else, which spell a number that fits.
pub proof fn a_number_is_read_exactly(s: &str, digits: Seq<char>, r: Option<u64>)
    requires
        call_ensures(parse_u64, (s,), r),
        s@.len() > 0 && s@[0] == '+' ==> digits == s@.skip(1),
        s@.len() == 0 || s@[0] != '+' ==> digits == s@,
    ensures
        (r is Some) == (digits.len() > 0 && (forall|i: int|
            0 <= i < digits.len() ==> '0' <= #[trigger] digits[i] <= '9') && spelled(digits, 10)
            <= 18446744073709551615),
        r matches Some(n) ==> n == spelled(digits, 10),
{
    if forall|i: int| 0 <= i < digits.len() ==> is_dec_digit(#[trigger] digits[i]) {
        lemma_dec_value_spelled(digits);
        assert forall|i: int| 0 <= i < digits.len() implies '0' <= #[trigger] digits[i] <= '9' by {
            assert(is_dec_digit(digits[i]));
        }
    }
    if forall|i: int| 0 <= i < digits.len() ==> '0' <= #[trigger] digits[i] <= '9' {
        assert forall|i: int| 0 <= i < digits.len() implies is_dec_digit(#[trigger] digits[i]) by {}
    }
}

proof fn lemma_dec_value_spelled(d: Seq<char>)
    requires
        forall|i: int| 0 <= i < d.len() ==> is_dec_digit(#[trigger] d[i]),
    ensures
        dec_value(d) == spelled(d, 10),
    decreases d.len(),
{
    if d.len() > 0 {
        assert forall|i: int| 0 <= i < d.drop_last().len() implies is_dec_digit(
            #[trigger] d.drop_last()[i],
        ) by {
            assert(is_dec_digit(d[i]));
        }
        lemma_dec_value_spelled(d.drop_last());
        assert(is_dec_digit(d[d.len() - 1]));
    }
}

/// A number in decimal reads back as itself, with or without a plus sign.
pub proof fn a_number_reads_back(n: u64)
    ensures
        parsed_u64(dec(n as nat)) == Some(n),
        parsed_u64(seq!['+'] + dec(n as nat)) == Some(n),
{
    let s = dec(n as nat);
    decimals_spell_the_number(n as nat);
    assert(s[0] != '+');
    assert forall|i: int| 0 <= i < s.len() implies is_dec_digit(#[trigger] s[i]) by {}
    lemma_dec_value_spelled(s);
    assert((seq!['+'] + s).skip(1) =~= s);
}

/// Whether a character is white space is told by its code point: these
/// twenty-five, and no others.
pub proof fn white_space_by_code_point(c: char, r: bool)
    requires
        call_ensures(white, (c,), r),
    ensures
        r == ({
            let n = c as u32;
            9 <= n <= 13 || n == 32 || n == 133 || n == 160 || n == 5760 || 8192 <= n <= 8202 || n
                == 8232 || n == 8233 || n == 8239 || n == 8287 || n == 12288
        }),
        r == is_white(c),
{
}

/// Text is blank exactly when it holds nothing but white space.
pub proof fn blank_text_is_white(s: &str, r: bool)
    requires
        call_ensures(is_blank, (s,), r),
    ensures
        r == !(exists|i: int| 0 <= i < s@.len() && !is_white(#[trigger] s@[i])),
{
}

/// Trimming the end takes away white space only, and all of it.
pub proof fn trimming_the_end_takes_white_space_only(s: &str, r: String)
    requires
        call_ensures(trim_end, (s,), r),
    ensures
        r@.len() <= s@.len(),
        r@ == s@.take(r@.len() as int),
        forall|i: int| r@.len() <= i < s@.len() ==> is_white(#[trigger] s@[i]),
        r@.len() > 0 ==> !is_white(r@.last()),
{
    lemma_trimmed_end(s@);
}

/// Trimming takes away the white space around a text and nothing else: what
/// is left stands in it, begins and ends with something else, and all that
/// is before and after it is white.
pub proof fn trimming_takes_white_space_only(s: &str, r: String)
    requires
        call_ensures(trim, (s,), r),
    ensures
        exists|i: int| #[trigger]
            stands_at(s@, r@, i) && (forall|k: int| 0 <= k < i ==> is_white(#[trigger] s@[k])) && (
            forall|k: int| i + r@.len() <= k < s@.len() ==> is_white(#[trigger] s@[k])),
        r@.len() > 0 ==> !is_white(r@[0]) && !is_white(r@.last()),
{
    let e = trimmed_end(s@);
    lemma_trimmed_end(s@);
    lemma_start_not_white(e);
    let i = lemma_start_suffix(e);
    assert(r@ == e.skip(i));
    assert(s@.subrange(i, i + r@.len()) =~= r@);
    assert forall|k: int| 0 <= k < i implies is_white(#[trigger] s@[k]) by {
        assert(e[k] == s@[k]);
    }
    assert(stands_at(s@, r@, i));
    if r@.len() > 0 {
        assert(r@.last() == e.last());
    }
}

/// How many characters lead the text that are white space.
proof fn lemma_start_suffix(s: Seq<char>) -> (i: int)
    ensures
        0 <= i <= s.len(),
        trimmed_start(s) == s.skip(i),
        forall|k: int| 0 <= k < i ==> is_white(#[trigger] s[k]),
    decreases s.len(),
{
    if s.len() > 0 && is_white(s[0]) {
        let j = lemma_start_suffix(s.skip(1));
        assert(s.skip(1).skip(j) =~= s.skip(j + 1));
        assert forall|k: int| 0 <= k < j + 1 implies is_white(#[trigger] s[k]) by {
            if k > 0 {
                assert(s.skip(1)[k - 1] == s[k]);
            }
        }
        j + 1
    } else {
        assert(s.skip(0) =~= s);
        0
    }
}

/// Two texts are the same but for case exactly when they are as long and
/// every two characters in the same place are equal, or are the same ASCII
/// letter in either case, thirty-two code points apart.
pub proof fn case_is_all_that_may_differ(a: &str, b: &str, r: bool)
    requires
        call_ensures(eq_ignore_case, (a, b), r),
    ensures
        r == (a@.len() == b@.len() && forall|i: int|
            0 <= i < a@.len() ==> {
                let x = #[trigger] a@[i] as u32;
                let y = b@[i] as u32;
                x == y || (65 <= x <= 90 && y == x + 32) || (65 <= y <= 90 && x == y + 32)
            }),
{
    let f = |c: char| ascii_lower(c);
    let p = a@.map_values(f);
    let q = b@.map_values(f);
    if r {
        assert(p == q);
        assert(p.len() == q.len());
        assert forall|i: int| 0 <= i < a@.len() implies {
            let x = #[trigger] a@[i] as u32;
            let y = b@[i] as u32;
            x == y || (65 <= x <= 90 && y == x + 32) || (65 <= y <= 90 && x == y + 32)
        } by {
            assert(p[i] == q[i]);
            assert(p[i] == ascii_lower(a@[i]));
            assert(q[i] == ascii_lower(b@[i]));
        }
    } else if a@.len() == b@.len() && forall|i: int|
        0 <= i < a@.len() ==> {
            let x = #[trigger] a@[i] as u32;
            let y = b@[i] as u32;
            x == y || (65 <= x <= 90 && y == x + 32) || (65 <= y <= 90 && x == y + 32)
        } {
        assert forall|i: int| 0 <= i < p.len() implies p[i] == q[i] by {
            let x = a@[i] as u32;
        }
        assert(p =~= q);
    }
}

/// Microseconds are shown as milliseconds: the whole ones, a point and exactly
/// three decimals, which together spell the number of microseconds.
pub proof fn milliseconds_are_exact(us: nat)
    ensures
        millis(us).len() == dec(us / 1000).len() + 4,
        millis(us).take(millis(us).len() - 4) == dec(us / 1000),
        millis(us)[millis(us).len() - 4] == '.',
        spelled(millis(us).take(millis(us).len() - 4), 10) * 1000 + spelled(
            millis(us).skip(millis(us).len() - 3),
            10,
        ) == us,
{
    let m = millis(us);
    let w = dec(us / 1000);
    decimals_spell_the_number(us / 1000);
    let (x, y, z) = (us / 100 % 10, us / 10 % 10, us % 10);
    let f = seq![digit(x), digit(y), digit(z)];
    assert(m =~= w + seq!['.'] + f);
    assert(m.take(m.len() - 4) =~= w);
    assert(m.skip(m.len() - 3) =~= f);
    lemma_three_digits(x, y, z);
    lemma_thousands(us);
}

proof fn lemma_thousands(n: nat)
    ensures
        n / 1000 * 1000 + (100 * (n / 100 % 10) + 10 * (n / 10 % 10) + n % 10) == n,
{
    assert(n / 1000 == n / 100 / 10);
    assert(n / 100 == n / 10 / 10);
}

proof fn lemma_three_digits(x: nat, y: nat, z: nat)
    requires
        x < 10,
        y < 10,
        z < 10,
    ensures
        spelled(seq![digit(x), digit(y), digit(z)], 10) == 100 * x + 10 * y + z,
{
    let f = seq![digit(x), digit(y), digit(z)];
    assert(f.drop_last() =~= seq![digit(x), digit(y)]);
    assert(seq![digit(x), digit(y)].drop_last() =~= seq![digit(x)]);
    assert(seq![digit(x)].drop_last() =~= Seq::<char>::empty());
    assert(spelled(Seq::<char>::empty(), 10) == 0);
    assert(spelled(seq![digit(x)], 10) == x);
    assert(spelled(seq![digit(x), digit(y)], 10) == 10 * x + y);
}

/// Milliseconds stand at the right of at least ten columns, with blanks and
/// nothing else before them.
pub proof fn milliseconds_are_aligned(us: u128, r: String)
    requires
        call_ensures(millis_column, (us,), r),
    ensures
        r@.len() >= 10,
        r@.len() > 10 ==> r@ == millis(us as nat),
        r@.skip(r@.len() - millis(us as nat).len()) == millis(us as nat),
        forall|i: int| 0 <= i < r@.len() - millis(us as nat).len() ==> #[trigger] r@[i] == ' ',
{
    let m = millis(us as nat);
    milliseconds_are_exact(us as nat);
    assert(r@.skip(r@.len() - m.len()) =~= m);
}

/// 10 to the power of `k`.
pub open spec fn power10(k: nat) -> nat
    decreases k,
{
    if k == 0 {
        1
    } else {
        10 * power10((k - 1) as nat)
    }
}

/// `s` spells `whole` and `f` units of the `width`-th decimal place: digits,
/// and, unless `f` is zero, a point and decimals that do not end in a zero.
pub open spec fn spells_decimal(s: Seq<char>, whole: nat, f: nat, width: nat) -> bool {
    let w = dec(whole);
    if f == 0 {
        s == w
    } else {
        let d = s.skip(w.len() as int + 1);
        &&& s.len() > w.len() + 1
        &&& s.take(w.len() as int) == w
        &&& s[w.len() as int] == '.'
        &&& d.len() <= width
        &&& d.last() != '0'
        &&& spelled(d, 10) * power10((width - d.len()) as nat) == f
    }
}

/// A time span is shown exactly, in the largest of seconds, milliseconds,
/// microseconds and nanoseconds of which it holds at least one.
pub proof fn a_span_is_exact(ns: u128, r: String)
    requires
        call_ensures(show_span, (ns,), r),
    ensures
        ns >= 1_000_000_000 ==> r@.len() > 1 && r@.last() == 's' && spells_decimal(
            r@.drop_last(),
            ns as nat / 1_000_000_000,
            ns as nat % 1_000_000_000,
            9,
        ),
        1_000_000 <= ns < 1_000_000_000 ==> r@.len() > 2 && r@.skip(r@.len() - 2) == seq!['m', 's']
            && spells_decimal(
            r@.take(r@.len() - 2),
            ns as nat / 1_000_000,
            ns as nat % 1_000_000,
            6,
        ),
        1_000 <= ns < 1_000_000 ==> r@.len() > 2 && r@.skip(r@.len() - 2) == seq!['\u{b5}', 's']
            && spells_decimal(r@.take(r@.len() - 2), ns as nat / 1_000, ns as nat % 1_000, 3),
        ns < 1_000 ==> r@ == dec(ns as nat) + seq!['n', 's'],
{
    let n = ns as nat;
    reveal_with_fuel(power10, 10);
    if n >= 1_000_000_000 {
        lemma_decimal(n / 1_000_000_000, n % 1_000_000_000, 9);
        assert(r@.drop_last() =~= decimal(n / 1_000_000_000, n % 1_000_000_000, 9));
    } else if n >= 1_000_000 {
        lemma_decimal(n / 1_000_000, n % 1_000_000, 6);
        assert(r@.take(r@.len() - 2) =~= decimal(n / 1_000_000, n % 1_000_000, 6));
        assert(r@.skip(r@.len() - 2) =~= seq!['m', 's']);
    } else if n >= 1_000 {
        lemma_decimal(n / 1_000, n % 1_000, 3);
        assert(r@.take(r@.len() - 2) =~= decimal(n / 1_000, n % 1_000, 3));
        assert(r@.skip(r@.len() - 2) =~= seq!['\u{b5}', 's']);
    } else {
        assert(r@ =~= dec(n) + seq!['n', 's']);
    }
}

proof fn lemma_decimal(whole: nat, f: nat, width: nat)
    requires
        f < power10(width),
    ensures
        spells_decimal(decimal(whole, f, width), whole, f, width),
        decimal(whole, f, width).len() > 0,
{
    decimals_spell_the_number(whole);
    if f > 0 {
        lemma_decimals(f, width);
        let s = decimal(whole, f, width);
        let w = dec(whole);
        assert(s.skip(w.len() as int + 1) =~= decimals(f, width));
        assert(s.take(w.len() as int) =~= w);
    }
}

proof fn lemma_decimals(f: nat, width: nat)
    requires
        0 < f < power10(width),
    ensures
        0 < decimals(f, width).len() <= width,
        decimals(f, width).last() != '0',
        spelled(decimals(f, width), 10) * power10((width - decimals(f, width).len()) as nat) == f,
    decreases width,
{
    if f % 10 == 0 {
        let w = (width - 1) as nat;
        lemma_decimals(f / 10, w);
        let d = decimals(f / 10, w);
        let v = spelled(d, 10);
        let p = power10((w - d.len()) as nat);
        assert(power10((width - d.len()) as nat) == 10 * p);
        assert(v * (10 * p) == 10 * (v * p)) by (nonlinear_arith);
    } else {
        lemma_padded(f, width);
        let d = padded(f, width);
        assert(d.last() == digit(f % 10));
        assert(spelled(d, 10) * 1 == spelled(d, 10));
        assert(power10(0) == 1);
    }
}

proof fn lemma_padded(n: nat, width: nat)
    requires
        n < power10(width),
    ensures
        padded(n, width).len() == width,
        spelled(padded(n, width), 10) == n,
    decreases width,
{
    if width > 0 {
        let w = (width - 1) as nat;
        lemma_padded(n / 10, w);
        assert(padded(n, width).drop_last() =~= padded(n / 10, w));
    }
}

/// A number is appended in decimal: what was there stays, and what is added
/// are digits that spell it.
pub proof fn a_number_is_appended(out: &mut String, n: u128)
    requires
        call_ensures(push_dec, (out, n), ()),
    ensures
        final(out)@.len() > old(out)@.len(),
        final(out)@.take(old(out)@.len() as int) == old(out)@,
        forall|i: int|
            old(out)@.len() <= i < final(out)@.len() ==> '0' <= #[trigger] final(out)@[i] <= '9',
        spelled(final(out)@.skip(old(out)@.len() as int), 10) == n,
{
    let k = old(out)@.len() as int;
    let d = dec(n as nat);
    decimals_spell_the_number(n as nat);
    assert(final(out)@.take(k) =~= old(out)@);
    assert(final(out)@.skip(k) =~= d);
    assert forall|i: int| k <= i < final(out)@.len() implies '0' <= #[trigger] final(out)@[i]
        <= '9' by {
        assert(final(out)@[i] == d[i - k]);
    }
}

/// Two texts are the same exactly when they are as long and agree in every
/// place.
pub proof fn texts_are_compared_whole(a: &str, b: &str, r: bool)
    requires
        call_ensures(same, (a, b), r),
    ensures
        r == (a@.len() == b@.len() && forall|i: int| 0 <= i < a@.len() ==> #[trigger] a@[i] == b@[i]),
{
    if a@.len() == b@.len() && forall|i: int| 0 <= i < a@.len() ==> #[trigger] a@[i] == b@[i] {
        assert(a@ =~= b@);
    }
}

} // verus!
