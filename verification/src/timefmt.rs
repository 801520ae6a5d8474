//! Formatting of a civil date and time as an RFC 3339 timestamp
//! (`YYYY-MM-DDTHH:MM:SSZ`), with a grammar predicate saying what it means
//! for a character sequence to be such a timestamp.

use vstd::prelude::*;

verus! {

/// A civil UTC date and time, held as plain fields.
#[derive(Clone, Copy, Debug, PartialEq, Eq, Structural)]
pub struct DateTimeParts {
    pub year: i32,
    pub month: u32,
    pub day: u32,
    pub hour: u32,
    pub minute: u32,
    pub second: u32,
}

/// The field ranges of a civil date and time.
pub open spec fn parts_in_range(p: DateTimeParts) -> bool {
    &&& 1 <= p.month <= 12
    &&& 1 <= p.day <= 31
    &&& p.hour <= 23
    &&& p.minute <= 59
    &&& p.second <= 59
}

/// A year that fits the four-digit year field of the format.
pub open spec fn year_formattable(p: DateTimeParts) -> bool {
    0 <= p.year <= 9999
}

/// The decimal digit character for a value below ten.
pub open spec fn digit_char(d: int) -> char {
    if d == 0 {
        '0'
    } else if d == 1 {
        '1'
    } else if d == 2 {
        '2'
    } else if d == 3 {
        '3'
    } else if d == 4 {
        '4'
    } else if d == 5 {
        '5'
    } else if d == 6 {
        '6'
    } else if d == 7 {
        '7'
    } else if d == 8 {
        '8'
    } else {
        '9'
    }
}

/// A value below one hundred written as exactly two digits.
pub open spec fn pad2(n: int) -> Seq<char> {
    seq![digit_char(n / 10), digit_char(n % 10)]
}

/// A value below ten thousand written as exactly four digits.
pub open spec fn pad4(n: int) -> Seq<char> {
    seq![
        digit_char(n / 1000),
        digit_char((n / 100) % 10),
        digit_char((n / 10) % 10),
        digit_char(n % 10),
    ]
}

/// The RFC 3339 rendering of a civil UTC date and time.
pub open spec fn rfc3339_seq(p: DateTimeParts) -> Seq<char> {
    pad4(p.year as int) + seq!['-'] + pad2(p.month as int) + seq!['-'] + pad2(p.day as int)
        + seq!['T'] + pad2(p.hour as int) + seq![':'] + pad2(p.minute as int) + seq![':'] + pad2(
        p.second as int,
    ) + seq!['Z']
}

/// A decimal digit character.
pub open spec fn is_digit(c: char) -> bool {
    '0' <= c && c <= '9'
}

/// The numeric value of a digit character.
pub open spec fn digit_val(c: char) -> int {
    c as int - 48
}

/// The value of the two digit characters starting at position `i`.
pub open spec fn two_digit_val(s: Seq<char>, i: int) -> int {
    digit_val(s[i]) * 10 + digit_val(s[i + 1])
}

/// The value of the four digit characters starting at position 0.
pub open spec fn four_digit_val(s: Seq<char>) -> int {
    digit_val(s[0]) * 1000 + digit_val(s[1]) * 100 + digit_val(s[2]) * 10 + digit_val(s[3])
}

/// A well-formed RFC 3339 UTC timestamp: twenty characters, digits and
/// punctuation in the shape `YYYY-MM-DDTHH:MM:SSZ`, with the month, day,
/// hour, minute and second fields inside their calendar ranges.
pub open spec fn is_rfc3339_timestamp(s: Seq<char>) -> bool {
    &&& s.len() == 20
    &&& is_digit(s[0]) && is_digit(s[1]) && is_digit(s[2]) && is_digit(s[3])
    &&& s[4] == '-'
    &&& is_digit(s[5]) && is_digit(s[6])
    &&& s[7] == '-'
    &&& is_digit(s[8]) && is_digit(s[9])
    &&& s[10] == 'T'
    &&& is_digit(s[11]) && is_digit(s[12])
    &&& s[13] == ':'
    &&& is_digit(s[14]) && is_digit(s[15])
    &&& s[16] == ':'
    &&& is_digit(s[17]) && is_digit(s[18])
    &&& s[19] == 'Z'
    &&& 1 <= two_digit_val(s, 5) <= 12
    &&& 1 <= two_digit_val(s, 8) <= 31
    &&& two_digit_val(s, 11) <= 23
    &&& two_digit_val(s, 14) <= 59
    &&& two_digit_val(s, 17) <= 59
}

/// The digit character of a value below ten is a digit, and its numeric value
/// is that value.
proof fn lemma_digit_char_val(d: int)
    requires
        0 <= d <= 9,
    ensures
        is_digit(digit_char(d)),
        digit_val(digit_char(d)) == d,
{
}

/// A rendered timestamp with in-range fields satisfies the grammar, and each
/// of its numeric fields reads back as the field it was rendered from.
#[verifier::rlimit(60)]
pub proof fn lemma_rendered_timestamp_is_rfc3339(p: DateTimeParts)
    requires
        parts_in_range(p),
        year_formattable(p),
    ensures
        is_rfc3339_timestamp(rfc3339_seq(p)),
        four_digit_val(rfc3339_seq(p)) == p.year,
        two_digit_val(rfc3339_seq(p), 5) == p.month,
        two_digit_val(rfc3339_seq(p), 8) == p.day,
        two_digit_val(rfc3339_seq(p), 11) == p.hour,
        two_digit_val(rfc3339_seq(p), 14) == p.minute,
        two_digit_val(rfc3339_seq(p), 17) == p.second,
{
    let s = rfc3339_seq(p);
    let y = p.year as int;
    assert(0 <= y / 1000 <= 9 && 0 <= (y / 100) % 10 <= 9 && 0 <= (y / 10) % 10 <= 9 && 0 <= y % 10
        <= 9);
    lemma_digit_char_val(y / 1000);
    lemma_digit_char_val((y / 100) % 10);
    lemma_digit_char_val((y / 10) % 10);
    lemma_digit_char_val(y % 10);
    lemma_digit_char_val(p.month as int / 10);
    lemma_digit_char_val(p.month as int % 10);
    lemma_digit_char_val(p.day as int / 10);
    lemma_digit_char_val(p.day as int % 10);
    lemma_digit_char_val(p.hour as int / 10);
    lemma_digit_char_val(p.hour as int % 10);
    lemma_digit_char_val(p.minute as int / 10);
    lemma_digit_char_val(p.minute as int % 10);
    lemma_digit_char_val(p.second as int / 10);
    lemma_digit_char_val(p.second as int % 10);
    assert(s.len() == 20);
    assert(s[0] == digit_char(y / 1000));
    assert(s[1] == digit_char((y / 100) % 10));
    assert(s[2] == digit_char((y / 10) % 10));
    assert(s[3] == digit_char(y % 10));
    assert(s[4] == '-');
    assert(s[5] == digit_char(p.month as int / 10));
    assert(s[6] == digit_char(p.month as int % 10));
    assert(s[7] == '-');
    assert(s[8] == digit_char(p.day as int / 10));
    assert(s[9] == digit_char(p.day as int % 10));
    assert(s[10] == 'T');
    assert(s[11] == digit_char(p.hour as int / 10));
    assert(s[12] == digit_char(p.hour as int % 10));
    assert(s[13] == ':');
    assert(s[14] == digit_char(p.minute as int / 10));
    assert(s[15] == digit_char(p.minute as int % 10));
    assert(s[16] == ':');
    assert(s[17] == digit_char(p.second as int / 10));
    assert(s[18] == digit_char(p.second as int % 10));
    assert(s[19] == 'Z');
    assert(y / 1000 * 1000 + ((y / 100) % 10) * 100 + ((y / 10) % 10) * 10 + y % 10 == y);
    assert(p.month as int / 10 * 10 + p.month as int % 10 == p.month as int);
    assert(p.day as int / 10 * 10 + p.day as int % 10 == p.day as int);
    assert(p.hour as int / 10 * 10 + p.hour as int % 10 == p.hour as int);
    assert(p.minute as int / 10 * 10 + p.minute as int % 10 == p.minute as int);
    assert(p.second as int / 10 * 10 + p.second as int % 10 == p.second as int);
}

/// The decimal digit of a value below ten, as a one-character string.
fn digit_str(d: u32) -> (r: &'static str)
    requires
        d <= 9,
    ensures
        r@ == seq![digit_char(d as int)],
{
    proof {
        reveal_strlit("0");
        reveal_strlit("1");
        reveal_strlit("2");
        reveal_strlit("3");
        reveal_strlit("4");
        reveal_strlit("5");
        reveal_strlit("6");
        reveal_strlit("7");
        reveal_strlit("8");
        reveal_strlit("9");
    }
    if d == 0 {
        "0"
    } else if d == 1 {
        "1"
    } else if d == 2 {
        "2"
    } else if d == 3 {
        "3"
    } else if d == 4 {
        "4"
    } else if d == 5 {
        "5"
    } else if d == 6 {
        "6"
    } else if d == 7 {
        "7"
    } else if d == 8 {
        "8"
    } else {
        "9"
    }
}

/// Append a value below one hundred as exactly two digits.
fn push2(out: &mut String, n: u32)
    requires
        n <= 99,
    ensures
        final(out)@ == old(out)@ + pad2(n as int),
{
    out.append(digit_str(n / 10));
    out.append(digit_str(n % 10));
    proof {
        assert(final(out)@ =~= old(out)@ + pad2(n as int));
    }
}

/// Render a civil UTC date and time as an RFC 3339 timestamp. Succeeds
/// exactly when the fields lie in their ranges and the year fits four
/// digits; the result is then the rendering `rfc3339_seq` character for
/// character.
pub fn format_rfc3339(p: &DateTimeParts) -> (r: Option<String>)
    ensures
        match r {
            Some(s) => parts_in_range(*p) && year_formattable(*p) && s@ == rfc3339_seq(*p),
            None => !(parts_in_range(*p) && year_formattable(*p)),
        },
{
    if !(p.year >= 0 && p.year <= 9999 && p.month >= 1 && p.month <= 12 && p.day >= 1 && p.day
        <= 31 && p.hour <= 23 && p.minute <= 59 && p.second <= 59) {
        return None;
    }
    let y = p.year as u32;
    let mut out = String::new();
    out.append(digit_str(y / 1000));
    out.append(digit_str((y / 100) % 10));
    out.append(digit_str((y / 10) % 10));
    out.append(digit_str(y % 10));
    out.append("-");
    push2(&mut out, p.month);
    out.append("-");
    push2(&mut out, p.day);
    out.append("T");
    push2(&mut out, p.hour);
    out.append(":");
    push2(&mut out, p.minute);
    out.append(":");
    push2(&mut out, p.second);
    out.append("Z");
    proof {
        reveal_strlit("-");
        reveal_strlit("T");
        reveal_strlit(":");
        reveal_strlit("Z");
        assert(("-")@ =~= seq!['-']);
        assert(("T")@ =~= seq!['T']);
        assert((":")@ =~= seq![':']);
        assert(("Z")@ =~= seq!['Z']);
        assert(out@ =~= rfc3339_seq(*p));
    }
    Some(out)
}

} // verus!
