//! Text that crosses the machine's boundary: the decimal numerals it writes
//! and the lines it reads back as numbers.

use vstd::prelude::*;
use vstd::string::*;

verus! {

/// The bytes of a text made of ASCII characters only: one byte per character.
pub open spec fn ascii(text: Seq<char>) -> Seq<u8> {
    Seq::new(text.len(), |i: int| text[i] as u8)
}

/// The decimal numeral of `n`: most significant digit first, no padding, no
/// sign.
pub open spec fn decimal_text(n: nat) -> Seq<u8>
    decreases n,
{
    if n < 10 {
        seq![(0x30 + n) as u8]
    } else {
        decimal_text(n / 10).push((0x30 + n % 10) as u8)
    }
}

/// The characters that trimming removes: the Unicode code points with the
/// `White_Space` property.
pub open spec fn is_whitespace(c: char) -> bool {
    let u = c as u32;
    ||| 0x09 <= u <= 0x0d
    ||| u == 0x20
    ||| u == 0x85
    ||| u == 0xa0
    ||| u == 0x1680
    ||| 0x2000 <= u <= 0x200a
    ||| u == 0x2028
    ||| u == 0x2029
    ||| u == 0x202f
    ||| u == 0x205f
    ||| u == 0x3000
}

/// One of the ten ASCII digits.
pub open spec fn is_digit(c: char) -> bool {
    '0' <= c <= '9'
}

/// The number a digit stands for; zero for any other character.
pub open spec fn digit_value(c: char) -> nat {
    if is_digit(c) {
        (c as u32 - 0x30) as nat
    } else {
        0
    }
}

/// `text` without its leading whitespace.
pub open spec fn trim_start(text: Seq<char>) -> Seq<char>
    decreases text.len(),
{
    if text.len() > 0 && is_whitespace(text[0]) {
        trim_start(text.skip(1))
    } else {
        text
    }
}

/// `text` without its trailing whitespace.
pub open spec fn trim_end(text: Seq<char>) -> Seq<char>
    decreases text.len(),
{
    if text.len() > 0 && is_whitespace(text.last()) {
        trim_end(text.drop_last())
    } else {
        text
    }
}

/// `text` without the whitespace at either end.
pub open spec fn trim(text: Seq<char>) -> Seq<char> {
    trim_end(trim_start(text))
}

/// The number that a row of digits denotes in base ten.
pub open spec fn digits_value(digits: Seq<char>) -> nat
    decreases digits.len(),
{
    if digits.len() == 0 {
        0
    } else {
        10 * digits_value(digits.drop_last()) + digit_value(digits.last())
    }
}

/// Every character of `text` is a digit.
pub open spec fn all_digits(text: Seq<char>) -> bool {
    forall|i: int| 0 <= i < text.len() ==> is_digit(#[trigger] text[i])
}

/// The value of a row of one or more digits that denotes at most 255.
/// Anything else has no value.
pub open spec fn unsigned_value(digits: Seq<char>) -> Option<u8> {
    if digits.len() > 0 && all_digits(digits) && digits_value(digits) <= 255 {
        Some(digits_value(digits) as u8)
    } else {
        None
    }
}

/// The value of a decimal numeral that fits in a byte: an optional `+`, then
/// one or more digits that denote at most 255. Anything else has no value.
pub open spec fn numeral_value(text: Seq<char>) -> Option<u8> {
    if text.len() > 0 && text[0] == '+' {
        unsigned_value(text.skip(1))
    } else {
        unsigned_value(text)
    }
}

/// The byte that a line of input denotes: the value of the numeral left when
/// the whitespace round it, the line ending included, is taken away.
pub open spec fn line_value(line: Seq<char>) -> Option<u8> {
    numeral_value(trim(line))
}

/// Skipping `n` whitespace characters at the front does not change what
/// trimming the front leaves.
proof fn lemma_trim_start(text: Seq<char>, n: int)
    requires
        0 <= n <= text.len(),
        forall|k: int| 0 <= k < n ==> is_whitespace(#[trigger] text[k]),
    ensures
        trim_start(text) == trim_start(text.skip(n)),
    decreases n,
{
    if n == 0 {
        assert(text.skip(0) =~= text);
    } else {
        assert(is_whitespace(text[0]));
        let rest = text.skip(1);
        assert forall|k: int| 0 <= k < n - 1 implies is_whitespace(#[trigger] rest[k]) by {
            assert(rest[k] == text[k + 1]);
        }
        lemma_trim_start(rest, n - 1);
        assert(rest.skip(n - 1) =~= text.skip(n));
    }
}

/// Dropping whitespace characters at the back, down to length `n`, does not
/// change what trimming the back leaves.
proof fn lemma_trim_end(text: Seq<char>, n: int)
    requires
        0 <= n <= text.len(),
        forall|k: int| n <= k < text.len() ==> is_whitespace(#[trigger] text[k]),
    ensures
        trim_end(text) == trim_end(text.take(n)),
    decreases text.len() - n,
{
    if n == text.len() {
        assert(text.take(n) =~= text);
    } else {
        assert(is_whitespace(text.last()));
        let rest = text.drop_last();
        assert forall|k: int| n <= k < rest.len() implies is_whitespace(#[trigger] rest[k]) by {
            assert(rest[k] == text[k]);
        }
        lemma_trim_end(rest, n);
        assert(rest.take(n) =~= text.take(n));
    }
}

/// A row of digits denotes at least what any of its prefixes denotes.
proof fn lemma_digits_value_grows(digits: Seq<char>, n: int)
    requires
        0 <= n <= digits.len(),
    ensures
        digits_value(digits.take(n)) <= digits_value(digits),
    decreases digits.len() - n,
{
    if n == digits.len() {
        assert(digits.take(n) =~= digits);
    } else {
        lemma_digits_value_grows(digits.drop_last(), n);
        assert(digits.drop_last().take(n) =~= digits.take(n));
    }
}

/// Tells whether `c` is whitespace.
pub fn whitespace(c: char) -> (yes: bool)
    ensures
        yes == is_whitespace(c),
{
    let u = c as u32;
    (0x09 <= u && u <= 0x0d) || u == 0x20 || u == 0x85 || u == 0xa0 || u == 0x1680 || (0x2000 <= u
        && u <= 0x200a) || u == 0x2028 || u == 0x2029 || u == 0x202f || u == 0x205f || u == 0x3000
}

/// Appends the bytes of an ASCII text to `out`.
pub(crate) fn put_text(out: &mut Vec<u8>, text: &str)
    requires
        is_ascii(text),
    ensures
        final(out)@ == old(out)@ + ascii(text@),
{
    broadcast use is_ascii_spec_bytes;

    out.extend_from_slice(text.as_bytes());
}

/// Appends the decimal numeral of `n` to `out`.
pub fn put_decimal(out: &mut Vec<u8>, n: u8)
    ensures
        final(out)@ == old(out)@ + decimal_text(n as nat),
{
    proof {
        reveal_with_fuel(decimal_text, 3);
    }
    if n >= 100 {
        out.push(0x30 + n / 100);
    }
    if n >= 10 {
        out.push(0x30 + (n / 10) % 10);
    }
    out.push(0x30 + n % 10);
}

/// Reads a line as a byte: trims it and parses what is left as an unsigned
/// decimal numeral. `None` when the trimmed line is empty, holds anything but
/// an optional `+` and digits, or denotes more than 255.
pub fn parse_line(line: &str) -> (value: Option<u8>)
    ensures
        value == line_value(line@),
{
    let len = line.unicode_len();
    let mut start: usize = 0;
    while start < len && whitespace(line.get_char(start))
        invariant
            start <= len == line@.len(),
            forall|k: int| 0 <= k < start ==> is_whitespace(#[trigger] line@[k]),
        decreases len - start,
    {
        start += 1;
    }
    let mut end: usize = len;
    while end > start && whitespace(line.get_char(end - 1))
        invariant
            start <= end <= len == line@.len(),
            forall|k: int| end <= k < len ==> is_whitespace(#[trigger] line@[k]),
        decreases end,
    {
        end -= 1;
    }
    let ghost trimmed = line@.subrange(start as int, end as int);
    proof {
        let front = line@.skip(start as int);
        lemma_trim_start(line@, start as int);
        assert(trim_start(front) == front) by {
            if front.len() > 0 {
                assert(front[0] == line@[start as int]);
            }
        }
        assert forall|k: int| end - start <= k < front.len() implies is_whitespace(
            #[trigger] front[k],
        ) by {
            assert(front[k] == line@[k + start]);
        }
        lemma_trim_end(front, end - start);
        assert(front.take(end - start) =~= trimmed);
        assert(trim_end(trimmed) == trimmed) by {
            if trimmed.len() > 0 {
                assert(trimmed.last() == line@[end - 1]);
            }
        }
        assert(trim(line@) == trimmed);
    }
    let mut at: usize = start;
    if at < end && line.get_char(at) == '+' {
        at += 1;
    }
    let first: usize = at;
    let ghost digits = line@.subrange(first as int, end as int);
    proof {
        if first == start {
            assert(digits =~= trimmed);
            if trimmed.len() > 0 {
                assert(trimmed[0] == line@[start as int]);
            }
        } else {
            assert(trimmed[0] == line@[start as int]);
            assert(digits =~= trimmed.skip(1));
        }
    }
    assert(line_value(line@) == unsigned_value(digits));
    if at == end {
        return None;
    }
    let mut acc: u16 = 0;
    while at < end
        invariant
            first <= at <= end <= len == line@.len(),
            digits == line@.subrange(first as int, end as int),
            line_value(line@) == unsigned_value(digits),
            all_digits(digits.take(at - first)),
            acc == digits_value(digits.take(at - first)),
            acc <= 255,
        decreases end - at,
    {
        let c = line.get_char(at);
        assert(digits[at - first] == c);
        if !(c >= '0' && c <= '9') {
            return None;
        }
        proof {
            let grown = digits.take(at - first + 1);
            assert(grown.drop_last() =~= digits.take(at - first));
            assert(grown.last() == c);
            lemma_digits_value_grows(digits, at - first + 1);
        }
        acc = acc * 10 + (c as u32 - 0x30) as u16;
        if acc > 255 {
            return None;
        }
        at += 1;
    }
    assert(digits.take(at - first) =~= digits);
    Some(acc as u8)
}

} // verus!
