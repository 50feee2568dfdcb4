//! Byte- and character-level helpers shared by the parsers and encoders:
//! unsigned integer parsing with std's `from_str_radix` rules, decimal
//! rendering, ASCII case folding and Unicode whitespace trimming.

use vstd::prelude::*;
use vstd::string::{StrSliceExecFns, StringSliceAdditionalSpecFns};
use vstd::utf8::*;

verus! {

// ---------------------------------------------------------------------------
// Unsigned integer parsing
// ---------------------------------------------------------------------------

/// Value of byte `b` read as a digit in `radix` (2..=36), as `char::to_digit` reads it:
/// `0-9`, then `a-z` / `A-Z` for the values 10 and up.
pub open spec fn digit_of(b: u8, radix: nat) -> Option<nat> {
    let v: int = if 48 <= b <= 57 {
        b - 48
    } else if 97 <= b <= 122 {
        b - 97 + 10
    } else if 65 <= b <= 90 {
        b - 65 + 10
    } else {
        radix as int
    };
    if 0 <= v < radix {
        Some(v as nat)
    } else {
        None
    }
}

/// Every byte of `s` is a digit in `radix`.
pub open spec fn all_digits(s: Seq<u8>, radix: nat) -> bool {
    forall|i: int| 0 <= i < s.len() ==> (#[trigger] digit_of(s[i], radix)) is Some
}

/// Positional value of a digit string (most significant digit first).
pub open spec fn digits_value(s: Seq<u8>, radix: nat) -> nat
    decreases s.len(),
{
    if s.len() == 0 {
        0
    } else {
        let d: nat = match digit_of(s.last(), radix) {
            Some(d) => d,
            None => 0,
        };
        digits_value(s.drop_last(), radix) * radix + d
    }
}

/// The bytes that an unsigned `from_str_radix` reads as digits: one leading `+` is skipped.
pub open spec fn unsigned_body(s: Seq<u8>) -> Seq<u8> {
    if s.len() > 0 && s[0] == 43 {
        s.drop_first()
    } else {
        s
    }
}

/// What std's `from_str_radix` (and so `str::parse`) gives for an unsigned integer type
/// whose largest value is `max`: `None` for an empty body, a non-digit, or a value above `max`.
pub open spec fn parse_unsigned(s: Seq<u8>, radix: nat, max: nat) -> Option<nat> {
    let body = unsigned_body(s);
    if body.len() == 0 || !all_digits(body, radix) || digits_value(body, radix) > max {
        None
    } else {
        Some(digits_value(body, radix))
    }
}

/// A digit string's value is at least the value of any of its prefixes.
pub proof fn lemma_digits_value_prefix(s: Seq<u8>, k: int, radix: nat)
    requires
        all_digits(s, radix),
        0 <= k <= s.len(),
        radix >= 1,
    ensures
        digits_value(s.take(k), radix) <= digits_value(s, radix),
    decreases s.len(),
{
    if k == s.len() {
        assert(s.take(k) =~= s);
    } else {
        let p = s.drop_last();
        assert(all_digits(p, radix)) by {
            assert forall|i: int| 0 <= i < p.len() implies (#[trigger] digit_of(p[i], radix)) is Some by {
                assert(p[i] == s[i]);
            }
        }
        lemma_digits_value_prefix(p, k, radix);
        assert(p.take(k) =~= s.take(k));
        let v = digits_value(p, radix);
        assert(v * radix >= v) by (nonlinear_arith)
            requires
                radix >= 1,
        ;
    }
}

/// The digit value of byte `b` in `radix`.
pub fn digit_value(b: u8, radix: u32) -> (r: Option<u32>)
    requires
        2 <= radix <= 36,
    ensures
        r matches Some(v) ==> digit_of(b, radix as nat) == Some(v as nat),
        r is None ==> digit_of(b, radix as nat) is None,
{
    let v: u32 = if 48 <= b && b <= 57 {
        (b - 48) as u32
    } else if 97 <= b && b <= 122 {
        (b - 97) as u32 + 10
    } else if 65 <= b && b <= 90 {
        (b - 65) as u32 + 10
    } else {
        radix
    };
    if v < radix {
        Some(v)
    } else {
        None
    }
}

/// Parses `s` as an unsigned integer in `radix` that may not exceed `max`, by the rules of
/// std's `from_str_radix` for unsigned types.
pub fn parse_unsigned_bytes(s: &[u8], radix: u32, max: u32) -> (r: Option<u32>)
    requires
        2 <= radix <= 36,
    ensures
        r matches Some(v) ==> parse_unsigned(s@, radix as nat, max as nat) == Some(v as nat),
        r is None ==> parse_unsigned(s@, radix as nat, max as nat) is None,
{
    let start: usize = if s.len() > 0 && s[0] == 43 {
        1
    } else {
        0
    };
    let ghost body = unsigned_body(s@);
    assert(body =~= s@.subrange(start as int, s@.len() as int));
    if start == s.len() {
        return None;
    }
    let mut acc: u64 = 0;
    let mut i: usize = start;
    while i < s.len()
        invariant
            start <= i <= s.len(),
            body == s@.subrange(start as int, s@.len() as int),
            body == unsigned_body(s@),
            body.len() > 0,
            2 <= radix <= 36,
            all_digits(body.take(i - start), radix as nat),
            acc == digits_value(body.take(i - start), radix as nat),
            acc <= max,
        decreases s.len() - i,
    {
        let k: usize = i - start;
        assert(body[k as int] == s@[i as int]);
        match digit_value(s[i], radix) {
            None => {
                assert(!all_digits(body, radix as nat)) by {
                    assert(digit_of(body[k as int], radix as nat) is None);
                }
                return None;
            },
            Some(d) => {
                let ghost next_prefix = body.take(k + 1);
                assert(next_prefix.drop_last() =~= body.take(k as int));
                assert(next_prefix.last() == s@[i as int]);
                assert(all_digits(next_prefix, radix as nat)) by {
                    assert forall|j: int| 0 <= j < next_prefix.len() implies (#[trigger] digit_of(
                        next_prefix[j],
                        radix as nat,
                    )) is Some by {
                        if j < k {
                            assert(next_prefix[j] == body.take(k as int)[j]);
                        }
                    }
                }
                assert(acc * (radix as u64) <= 0xffff_ffffu64 * 36) by (nonlinear_arith)
                    requires
                        acc <= 0xffff_ffffu64,
                        radix <= 36,
                ;
                let next: u64 = acc * (radix as u64) + d as u64;
                assert(next == digits_value(next_prefix, radix as nat));
                if next > max as u64 {
                    proof {
                        if all_digits(body, radix as nat) {
                            lemma_digits_value_prefix(body, k + 1, radix as nat);
                        }
                    }
                    return None;
                }
                acc = next;
                i = i + 1;
            },
        }
    }
    assert(body.take(body.len() as int) =~= body);
    Some(acc as u32)
}

// ---------------------------------------------------------------------------
// Decimal rendering
// ---------------------------------------------------------------------------

/// ASCII decimal digits of `n`, as `Display` writes an unsigned integer.
pub open spec fn decimal(n: nat) -> Seq<u8>
    decreases n,
{
    if n < 10 {
        seq![(48 + n) as u8]
    } else {
        decimal(n / 10).push((48 + n % 10) as u8)
    }
}

/// Signed decimal: a leading `-` for negative values.
pub open spec fn signed_decimal(n: int) -> Seq<u8> {
    if n < 0 {
        seq![45u8] + decimal((-n) as nat)
    } else {
        decimal(n as nat)
    }
}

/// Appends the decimal digits of `n`.
pub fn push_decimal(out: &mut Vec<u8>, n: u64)
    ensures
        final(out)@ == old(out)@ + decimal(n as nat),
    decreases n,
{
    if n >= 10 {
        push_decimal(out, n / 10);
    }
    out.push((48 + n % 10) as u8);
    proof {
        if n < 10 {
            assert(n % 10 == n);
        }
    }
}

/// Appends the decimal rendering of a signed value.
pub fn push_signed_decimal(out: &mut Vec<u8>, n: i64)
    ensures
        final(out)@ == old(out)@ + signed_decimal(n as int),
{
    if n < 0 {
        out.push(45u8);
        let m: u64 = if n == i64::MIN {
            0x8000_0000_0000_0000u64
        } else {
            (-n) as u64
        };
        push_decimal(out, m);
        proof {
            assert(m as int == -(n as int));
        }
    } else {
        push_decimal(out, n as u64);
    }
}

// ---------------------------------------------------------------------------
// ASCII case folding
// ---------------------------------------------------------------------------

/// `u8::to_ascii_lowercase`.
pub open spec fn ascii_lower(b: u8) -> u8 {
    if 65 <= b <= 90 {
        (b + 32) as u8
    } else {
        b
    }
}

/// `a` and `b` are equal up to ASCII case, as `eq_ignore_ascii_case` compares them.
pub open spec fn eq_ignore_ascii_case(a: Seq<u8>, b: Seq<u8>) -> bool {
    a.len() == b.len() && forall|i: int| 0 <= i < a.len() ==> ascii_lower(#[trigger] a[i]) == ascii_lower(b[i])
}

/// Some window of `hay` equals `needle` up to ASCII case.
pub open spec fn contains_ignore_ascii_case(hay: Seq<u8>, needle: Seq<u8>) -> bool {
    exists|k: int|
        0 <= k && k + needle.len() <= hay.len() && #[trigger] eq_ignore_ascii_case(
            hay.subrange(k, k + needle.len()),
            needle,
        )
}

/// Lower-cases one ASCII byte.
pub fn to_ascii_lower(b: u8) -> (r: u8)
    ensures
        r == ascii_lower(b),
{
    if 65 <= b && b <= 90 {
        b + 32
    } else {
        b
    }
}

/// Whether `hay[at..at + needle.len()]` equals `needle` up to ASCII case.
pub fn eq_ignore_ascii_case_at(hay: &[u8], at: usize, needle: &[u8]) -> (r: bool)
    requires
        at + needle@.len() <= hay@.len(),
    ensures
        r == eq_ignore_ascii_case(hay@.subrange(at as int, at + needle@.len()), needle@),
{
    let ghost w = hay@.subrange(at as int, at + needle@.len());
    let mut j: usize = 0;
    while j < needle.len()
        invariant
            j <= needle@.len(),
            at + needle@.len() <= hay@.len(),
            w == hay@.subrange(at as int, at + needle@.len()),
            forall|i: int| 0 <= i < j ==> ascii_lower(#[trigger] w[i]) == ascii_lower(needle@[i]),
        decreases needle.len() - j,
    {
        assert(at + j < hay@.len() && hay@.len() == hay.len());
        if to_ascii_lower(hay[at + j]) != to_ascii_lower(needle[j]) {
            assert(w[j as int] == hay@[at + j]);
            return false;
        }
        assert(w[j as int] == hay@[at + j]);
        j = j + 1;
    }
    true
}

/// Whether `hay` has a window equal to `needle` up to ASCII case.
pub fn contains_ignore_case(hay: &[u8], needle: &[u8]) -> (r: bool)
    ensures
        r == contains_ignore_ascii_case(hay@, needle@),
{
    if needle.len() > hay.len() {
        return false;
    }
    let last: usize = hay.len() - needle.len();
    let mut k: usize = 0;
    loop
        invariant
            last == hay@.len() - needle@.len(),
            k <= last,
            forall|m: int|
                0 <= m < k ==> !#[trigger] eq_ignore_ascii_case(
                    hay@.subrange(m, m + needle@.len()),
                    needle@,
                ),
        decreases last - k,
    {
        if eq_ignore_ascii_case_at(hay, k, needle) {
            return true;
        }
        if k == last {
            return false;
        }
        k = k + 1;
    }
}

/// Whether two byte strings are equal up to ASCII case.
pub fn equals_ignore_case(a: &[u8], b: &[u8]) -> (r: bool)
    ensures
        r == eq_ignore_ascii_case(a@, b@),
{
    if a.len() != b.len() {
        return false;
    }
    let r = eq_ignore_ascii_case_at(a, 0, b);
    assert(a@.subrange(0, b@.len() as int) =~= a@);
    r
}

// ---------------------------------------------------------------------------
// Characters and UTF-8
// ---------------------------------------------------------------------------

/// UTF-8 bytes of a character sequence (as a string literal or `str` holds them).
pub open spec fn utf8(s: Seq<char>) -> Seq<u8> {
    encode_utf8(s)
}

/// Appends the UTF-8 bytes of a string slice.
pub fn push_str(out: &mut Vec<u8>, s: &str)
    ensures
        final(out)@ == old(out)@ + utf8(s@),
{
    out.extend_from_slice(s.as_bytes());
}

/// Appends the UTF-8 encoding of one character.
pub fn push_char(out: &mut Vec<u8>, c: char)
    ensures
        final(out)@ == old(out)@ + utf8(seq![c]),
{
    let v: u32 = c as u32;
    proof {
        vstd::utf8::char_is_scalar(c);
        assert(utf8(seq![c]) =~= encode_scalar(v) + encode_utf8(seq![c].drop_first()));
        assert(encode_utf8(seq![c].drop_first()) =~= Seq::<u8>::empty());
    }
    if v <= 0x7F {
        out.push((v & 0x7F) as u8);
    } else if v <= 0x7FF {
        out.push(0xC0 | ((v >> 6) & 0x1F) as u8);
        out.push(0x80 | (v & 0x3F) as u8);
    } else if v <= 0xFFFF {
        out.push(0xE0 | ((v >> 12) & 0x0F) as u8);
        out.push(0x80 | ((v >> 6) & 0x3F) as u8);
        out.push(0x80 | (v & 0x3F) as u8);
    } else {
        out.push(0xF0 | ((v >> 18) & 0x7) as u8);
        out.push(0x80 | ((v >> 12) & 0x3F) as u8);
        out.push(0x80 | ((v >> 6) & 0x3F) as u8);
        out.push(0x80 | (v & 0x3F) as u8);
    }
}

/// The characters of a string slice.
pub fn chars_of(s: &str) -> (r: Vec<char>)
    ensures
        r@ == s@,
{
    let n = s.unicode_len();
    let mut v: Vec<char> = Vec::new();
    let mut i: usize = 0;
    while i < n
        invariant
            n == s@.len(),
            i <= n,
            v@ == s@.take(i as int),
        decreases n - i,
    {
        let c = s.get_char(i);
        v.push(c);
        assert(s@.take(i + 1) =~= s@.take(i as int).push(c));
        i = i + 1;
    }
    assert(s@.take(n as int) =~= s@);
    v
}

/// Every character is ASCII.
pub open spec fn all_ascii(s: Seq<char>) -> bool {
    forall|i: int| 0 <= i < s.len() ==> #[trigger] s[i] <= '\u{7f}'
}

/// Bytes of an all-ASCII character sequence.
pub open spec fn ascii_bytes(s: Seq<char>) -> Seq<u8> {
    s.map_values(|c: char| c as u8)
}

/// `str::parse` for an unsigned type with largest value `max`, on text given as characters:
/// a character outside ASCII is never a digit, sign or anything else the parser accepts.
pub open spec fn parse_unsigned_text(s: Seq<char>, max: nat) -> Option<nat> {
    if all_ascii(s) {
        parse_unsigned(ascii_bytes(s), 10, max)
    } else {
        None
    }
}

/// Parses decimal text given as characters, by [`parse_unsigned_text`].
pub fn parse_unsigned_chars(s: &[char], max: u32) -> (r: Option<u32>)
    ensures
        r matches Some(v) ==> parse_unsigned_text(s@, max as nat) == Some(v as nat),
        r is None ==> parse_unsigned_text(s@, max as nat) is None,
{
    let mut bytes: Vec<u8> = Vec::new();
    let mut i: usize = 0;
    while i < s.len()
        invariant
            i <= s@.len(),
            all_ascii(s@.take(i as int)),
            bytes@ == ascii_bytes(s@.take(i as int)),
        decreases s.len() - i,
    {
        let c = s[i];
        if c > '\u{7f}' {
            assert(!all_ascii(s@)) by {
                assert(!(s@[i as int] <= '\u{7f}'));
            }
            return None;
        }
        bytes.push(c as u8);
        assert(s@.take(i + 1) =~= s@.take(i as int).push(c));
        assert(all_ascii(s@.take(i + 1))) by {
            assert forall|j: int| 0 <= j < i + 1 implies #[trigger] s@.take(i + 1)[j] <= '\u{7f}' by {
                if j < i {
                    assert(s@.take(i + 1)[j] == s@.take(i as int)[j]);
                }
            }
        }
        i = i + 1;
    }
    assert(s@.take(s@.len() as int) =~= s@);
    parse_unsigned_bytes(&bytes, 10, max)
}

/// The Unicode `White_Space` property of one character.
pub fn is_white_space_char(c: char) -> (r: bool)
    ensures
        r == is_white_space(c),
{
    ('\u{9}' <= c && c <= '\u{d}') || c == ' ' || c == '\u{85}' || c == '\u{a0}' || c
        == '\u{1680}' || ('\u{2000}' <= c && c <= '\u{200a}') || c == '\u{2028}' || c
        == '\u{2029}' || c == '\u{202f}' || c == '\u{205f}' || c == '\u{3000}'
}

/// `s` with leading and trailing whitespace removed.
pub fn trim_char_slice(s: &[char]) -> (r: Vec<char>)
    ensures
        r@ == trim_chars(s@),
{
    let mut start: usize = 0;
    assert(s@.skip(0) =~= s@);
    while start < s.len() && is_white_space_char(s[start])
        invariant
            start <= s@.len(),
            trim_start_chars(s@) == trim_start_chars(s@.skip(start as int)),
        decreases s.len() - start,
    {
        assert(s@.skip(start as int).drop_first() =~= s@.skip(start + 1));
        start = start + 1;
    }
    let mut end: usize = s.len();
    let ghost mid = s@.skip(start as int);
    assert(trim_start_chars(s@) == mid);
    while end > start && is_white_space_char(s[end - 1])
        invariant
            start <= end <= s@.len(),
            mid == s@.skip(start as int),
            trim_end_chars(mid) == trim_end_chars(s@.subrange(start as int, end as int)),
        decreases end,
    {
        assert(s@.subrange(start as int, end as int).drop_last() =~= s@.subrange(
            start as int,
            end - 1,
        ));
        end = end - 1;
    }
    let mut r: Vec<char> = Vec::new();
    let mut i: usize = start;
    while i < end
        invariant
            start <= i <= end <= s@.len(),
            r@ == s@.subrange(start as int, i as int),
        decreases end - i,
    {
        r.push(s[i]);
        assert(s@.subrange(start as int, i + 1) =~= s@.subrange(start as int, i as int).push(s@[i as int]));
        i = i + 1;
    }
    assert(mid =~= s@.subrange(start as int, s@.len() as int));
    r
}

// ---------------------------------------------------------------------------
// Building strings
// ---------------------------------------------------------------------------

/// `String::push`: the documentation promises that the character is appended.
#[verifier::external_body]
pub(crate) fn string_push(s: &mut String, c: char)
    ensures
        final(s)@ == old(s)@.push(c),
{
    s.push(c);
}

/// Decimal digits of `n` as characters.
pub open spec fn decimal_chars(n: nat) -> Seq<char>
    decreases n,
{
    if n < 10 {
        seq![(48 + n) as char]
    } else {
        decimal_chars(n / 10).push((48 + n % 10) as char)
    }
}

/// Signed decimal as characters.
pub open spec fn signed_decimal_chars(n: int) -> Seq<char> {
    if n < 0 {
        seq!['-'] + decimal_chars((-n) as nat)
    } else {
        decimal_chars(n as nat)
    }
}

/// Appends the decimal digits of `n` to a string.
pub fn string_push_decimal(s: &mut String, n: u64)
    ensures
        final(s)@ == old(s)@ + decimal_chars(n as nat),
    decreases n,
{
    if n >= 10 {
        string_push_decimal(s, n / 10);
    }
    let d: u8 = (n % 10) as u8;
    let c = (48u8 + d) as char;
    string_push(s, c);
    proof {
        if n < 10 {
            assert(n % 10 == n);
        }
        assert(old(s)@ + decimal_chars(n as nat) =~= final(s)@);
    }
}

/// Appends a signed decimal to a string.
pub fn string_push_signed_decimal(s: &mut String, n: i64)
    ensures
        final(s)@ == old(s)@ + signed_decimal_chars(n as int),
{
    if n < 0 {
        string_push(s, '-');
        let m: u64 = if n == i64::MIN {
            0x8000_0000_0000_0000u64
        } else {
            (-n) as u64
        };
        string_push_decimal(s, m);
        proof {
            assert(m as int == -(n as int));
            assert(final(s)@ =~= old(s)@ + signed_decimal_chars(n as int));
        }
    } else {
        string_push_decimal(s, n as u64);
    }
}

// ---------------------------------------------------------------------------
// Unicode whitespace trimming
// ---------------------------------------------------------------------------

/// The Unicode `White_Space` property, which `char::is_whitespace` tests.
pub open spec fn is_white_space(c: char) -> bool {
    ||| '\u{9}' <= c <= '\u{d}'
    ||| c == ' '
    ||| c == '\u{85}'
    ||| c == '\u{a0}'
    ||| c == '\u{1680}'
    ||| '\u{2000}' <= c <= '\u{200a}'
    ||| c == '\u{2028}'
    ||| c == '\u{2029}'
    ||| c == '\u{202f}'
    ||| c == '\u{205f}'
    ||| c == '\u{3000}'
}

/// `s` without its leading whitespace.
pub open spec fn trim_start_chars(s: Seq<char>) -> Seq<char>
    decreases s.len(),
{
    if s.len() > 0 && is_white_space(s[0]) {
        trim_start_chars(s.drop_first())
    } else {
        s
    }
}

/// `s` without its trailing whitespace.
pub open spec fn trim_end_chars(s: Seq<char>) -> Seq<char>
    decreases s.len(),
{
    if s.len() > 0 && is_white_space(s.last()) {
        trim_end_chars(s.drop_last())
    } else {
        s
    }
}

/// `s` without leading and trailing whitespace.
pub open spec fn trim_chars(s: Seq<char>) -> Seq<char> {
    trim_end_chars(trim_start_chars(s))
}

/// `s` without leading and trailing characters of the Unicode `White_Space` property, as
/// `str::trim` gives it.
pub(crate) fn trim(s: &str) -> (r: &str)
    ensures
        r@ == trim_chars(s@),
{
    let n = s.unicode_len();
    let mut start: usize = 0;
    assert(s@.skip(0) =~= s@);
    while start < n && is_white_space_char(s.get_char(start))
        invariant
            n == s@.len(),
            start <= s@.len(),
            trim_start_chars(s@) == trim_start_chars(s@.skip(start as int)),
        decreases n - start,
    {
        assert(s@.skip(start as int).drop_first() =~= s@.skip(start + 1));
        start = start + 1;
    }
    let mut end: usize = n;
    let ghost mid = s@.skip(start as int);
    assert(trim_start_chars(s@) == mid);
    while end > start && is_white_space_char(s.get_char(end - 1))
        invariant
            n == s@.len(),
            start <= end <= s@.len(),
            mid == s@.skip(start as int),
            trim_end_chars(mid) == trim_end_chars(s@.subrange(start as int, end as int)),
        decreases end,
    {
        assert(s@.subrange(start as int, end as int).drop_last() =~= s@.subrange(
            start as int,
            end - 1,
        ));
        end = end - 1;
    }
    assert(mid =~= s@.subrange(start as int, s@.len() as int));
    s.substring_char(start, end)
}

} // verus!
