//! The capture timestamp: a calendar date and a time of day, parsed from the
//! fixed textual pattern `YYYY-MM-DD HH:MM:SS` and formatted back as the
//! canonical file stem `YYYY-MM-DD_HH-MM-SS`.

use crate::text::digit_char;
use vstd::prelude::*;
use vstd::string::StrSliceExecFns;
use vstd::string::StringExecFns;

verus! {

/// A capture date and time, without a time zone.
#[derive(Debug, Clone, Copy, PartialEq, Eq, Structural)]
pub struct Timestamp {
    pub year: u32,
    pub month: u32,
    pub day: u32,
    pub hour: u32,
    pub minute: u32,
    pub second: u32,
}

/// Whether a year is a leap year in the proleptic Gregorian calendar.
pub open spec fn spec_is_leap_year(y: int) -> bool {
    y % 4 == 0 && (y % 100 != 0 || y % 400 == 0)
}

/// The number of days of a month in a given year.
pub open spec fn spec_days_in_month(y: int, m: int) -> int
    recommends
        1 <= m <= 12,
{
    if m == 2 {
        if spec_is_leap_year(y) {
            29
        } else {
            28
        }
    } else if m == 4 || m == 6 || m == 9 || m == 11 {
        30
    } else {
        31
    }
}

impl Timestamp {
    /// A well-formed timestamp: a four-digit year, an existing calendar
    /// date and a time of day on the twenty-four hour clock.
    pub open spec fn valid(self) -> bool {
        &&& self.year <= 9999
        &&& 1 <= self.month <= 12
        &&& 1 <= self.day <= spec_days_in_month(self.year as int, self.month as int)
        &&& self.hour <= 23
        &&& self.minute <= 59
        &&& self.second <= 59
    }
}

/// Whether a character is a decimal digit.
pub open spec fn is_digit(c: char) -> bool {
    48 <= c as u32 <= 57
}

/// The value of a decimal digit character.
pub open spec fn digit_val(c: char) -> int
    recommends
        is_digit(c),
{
    c as u32 - 48
}

/// Whether a character sequence matches the fixed textual pattern
/// `YYYY-MM-DD HH:MM:SS`: nineteen characters, digits in the numeric
/// positions, with `-`, a space and `:` as the separators.
pub open spec fn timestamp_text_wf(s: Seq<char>) -> bool {
    &&& s.len() == 19
    &&& is_digit(s[0]) && is_digit(s[1]) && is_digit(s[2]) && is_digit(s[3])
    &&& s[4] == '-'
    &&& is_digit(s[5]) && is_digit(s[6])
    &&& s[7] == '-'
    &&& is_digit(s[8]) && is_digit(s[9])
    &&& s[10] == ' '
    &&& is_digit(s[11]) && is_digit(s[12])
    &&& s[13] == ':'
    &&& is_digit(s[14]) && is_digit(s[15])
    &&& s[16] == ':'
    &&& is_digit(s[17]) && is_digit(s[18])
}

/// The timestamp the pattern positions of a well-formed text spell out,
/// before any calendar validity check.
pub open spec fn spec_fields_of_text(s: Seq<char>) -> Timestamp
    recommends
        timestamp_text_wf(s),
{
    Timestamp {
        year: (digit_val(s[0]) * 1000 + digit_val(s[1]) * 100 + digit_val(s[2]) * 10 + digit_val(
            s[3],
        )) as u32,
        month: (digit_val(s[5]) * 10 + digit_val(s[6])) as u32,
        day: (digit_val(s[8]) * 10 + digit_val(s[9])) as u32,
        hour: (digit_val(s[11]) * 10 + digit_val(s[12])) as u32,
        minute: (digit_val(s[14]) * 10 + digit_val(s[15])) as u32,
        second: (digit_val(s[17]) * 10 + digit_val(s[18])) as u32,
    }
}

/// The exact meaning of parsing a capture-time text: a timestamp when and
/// only when the text matches the fixed pattern and names an existing
/// calendar date and time of day; absent otherwise.
pub open spec fn spec_parse_timestamp(s: Seq<char>) -> Option<Timestamp> {
    if timestamp_text_wf(s) && spec_fields_of_text(s).valid() {
        Some(spec_fields_of_text(s))
    } else {
        None
    }
}

/// Two digit characters, zero padded, for a value below one hundred.
pub open spec fn spec_pad2(v: int) -> Seq<char>
    recommends
        0 <= v < 100,
{
    seq![digit_char(v / 10 % 10), digit_char(v % 10)]
}

/// Four digit characters, zero padded, for a value below ten thousand.
pub open spec fn spec_pad4(v: int) -> Seq<char>
    recommends
        0 <= v < 10000,
{
    seq![
        digit_char(v / 1000 % 10),
        digit_char(v / 100 % 10),
        digit_char(v / 10 % 10),
        digit_char(v % 10),
    ]
}

/// The canonical file stem of a timestamp: `YYYY-MM-DD_HH-MM-SS`,
/// zero padded, with an underscore between date and time.
pub open spec fn spec_format_stem(t: Timestamp) -> Seq<char>
    recommends
        t.valid(),
{
    spec_pad4(t.year as int) + seq!['-'] + spec_pad2(t.month as int) + seq!['-'] + spec_pad2(
        t.day as int,
    ) + seq!['_'] + spec_pad2(t.hour as int) + seq!['-'] + spec_pad2(t.minute as int) + seq!['-']
        + spec_pad2(t.second as int)
}

/// The one-character string for a decimal digit value.
fn digit_str(d: u32) -> (r: &'static str)
    requires
        d <= 9,
    ensures
        r@ =~= seq![digit_char(d as int)],
{
    match d {
        0u32 => {
            proof {
                reveal_strlit("0");
            }
            "0"
        },
        1u32 => {
            proof {
                reveal_strlit("1");
            }
            "1"
        },
        2u32 => {
            proof {
                reveal_strlit("2");
            }
            "2"
        },
        3u32 => {
            proof {
                reveal_strlit("3");
            }
            "3"
        },
        4u32 => {
            proof {
                reveal_strlit("4");
            }
            "4"
        },
        5u32 => {
            proof {
                reveal_strlit("5");
            }
            "5"
        },
        6u32 => {
            proof {
                reveal_strlit("6");
            }
            "6"
        },
        7u32 => {
            proof {
                reveal_strlit("7");
            }
            "7"
        },
        8u32 => {
            proof {
                reveal_strlit("8");
            }
            "8"
        },
        _ => {
            proof {
                reveal_strlit("9");
            }
            "9"
        },
    }
}

/// Appends a value below one hundred as two zero-padded digits.
fn push_pad2(out: &mut String, v: u32)
    requires
        v < 100,
    ensures
        final(out)@ == old(out)@ + spec_pad2(v as int),
{
    out.append(digit_str(v / 10 % 10));
    out.append(digit_str(v % 10));
    proof {
        assert(out@ =~= old(out)@ + spec_pad2(v as int));
    }
}

/// Appends a value below ten thousand as four zero-padded digits.
fn push_pad4(out: &mut String, v: u32)
    requires
        v < 10000,
    ensures
        final(out)@ == old(out)@ + spec_pad4(v as int),
{
    out.append(digit_str(v / 1000 % 10));
    out.append(digit_str(v / 100 % 10));
    out.append(digit_str(v / 10 % 10));
    out.append(digit_str(v % 10));
    proof {
        assert(out@ =~= old(out)@ + spec_pad4(v as int));
    }
}

impl Timestamp {
    /// Formats the timestamp as the canonical file stem
    /// `YYYY-MM-DD_HH-MM-SS`.
    pub fn format_stem(&self) -> (r: String)
        requires
            self.valid(),
        ensures
            r@ == spec_format_stem(*self),
    {
        let mut r = String::new();
        push_pad4(&mut r, self.year);
        r.append("-");
        push_pad2(&mut r, self.month);
        r.append("-");
        push_pad2(&mut r, self.day);
        r.append("_");
        push_pad2(&mut r, self.hour);
        r.append("-");
        push_pad2(&mut r, self.minute);
        r.append("-");
        push_pad2(&mut r, self.second);
        proof {
            reveal_strlit("-");
            reveal_strlit("_");
            assert("-"@ =~= seq!['-']);
            assert("_"@ =~= seq!['_']);
            assert(r@ =~= spec_format_stem(*self));
        }
        r
    }
}

/// Reads the digit character at a position of a string.
fn digit_at(s: &str, i: usize) -> (r: Option<u32>)
    requires
        i < s@.len(),
    ensures
        match r {
            Some(v) => is_digit(s@[i as int]) && v == digit_val(s@[i as int]),
            None => !is_digit(s@[i as int]),
        },
{
    let c = s.get_char(i);
    let cu = c as u32;
    if 48 <= cu && cu <= 57 {
        Some(cu - 48)
    } else {
        None
    }
}

/// Checks that the character at a position of a string is the one given.
fn char_at_is(s: &str, i: usize, c: char) -> (r: bool)
    requires
        i < s@.len(),
    ensures
        r == (s@[i as int] == c),
{
    let got = s.get_char(i);
    got == c
}

/// Whether a year is a leap year.
pub fn is_leap_year(y: u32) -> (r: bool)
    ensures
        r == spec_is_leap_year(y as int),
{
    y % 4 == 0 && (y % 100 != 0 || y % 400 == 0)
}

/// The number of days of a month in a given year.
pub fn days_in_month(y: u32, m: u32) -> (r: u32)
    requires
        1 <= m <= 12,
    ensures
        r == spec_days_in_month(y as int, m as int),
{
    if m == 2 {
        if is_leap_year(y) {
            29
        } else {
            28
        }
    } else if m == 4 || m == 6 || m == 9 || m == 11 {
        30
    } else {
        31
    }
}

/// Parses a capture-time text against the fixed pattern
/// `YYYY-MM-DD HH:MM:SS`, rejecting texts that do not match it and texts
/// whose fields do not name an existing calendar date and time of day.
pub fn parse_timestamp(s: &str) -> (r: Option<Timestamp>)
    ensures
        r == spec_parse_timestamp(s@),
{
    if s.unicode_len() != 19 {
        return None;
    }
    if !(char_at_is(s, 4, '-') && char_at_is(s, 7, '-') && char_at_is(s, 10, ' ') && char_at_is(
        s,
        13,
        ':',
    ) && char_at_is(s, 16, ':')) {
        return None;
    }
    let d0 = digit_at(s, 0);
    let d1 = digit_at(s, 1);
    let d2 = digit_at(s, 2);
    let d3 = digit_at(s, 3);
    let d5 = digit_at(s, 5);
    let d6 = digit_at(s, 6);
    let d8 = digit_at(s, 8);
    let d9 = digit_at(s, 9);
    let d11 = digit_at(s, 11);
    let d12 = digit_at(s, 12);
    let d14 = digit_at(s, 14);
    let d15 = digit_at(s, 15);
    let d17 = digit_at(s, 17);
    let d18 = digit_at(s, 18);
    match (d0, d1, d2, d3, d5, d6, d8, d9, d11, d12, d14, d15, d17, d18) {
        (
            Some(y0),
            Some(y1),
            Some(y2),
            Some(y3),
            Some(mo0),
            Some(mo1),
            Some(da0),
            Some(da1),
            Some(h0),
            Some(h1),
            Some(mi0),
            Some(mi1),
            Some(se0),
            Some(se1),
        ) => {
            let t = Timestamp {
                year: y0 * 1000 + y1 * 100 + y2 * 10 + y3,
                month: mo0 * 10 + mo1,
                day: da0 * 10 + da1,
                hour: h0 * 10 + h1,
                minute: mi0 * 10 + mi1,
                second: se0 * 10 + se1,
            };
            if 1 <= t.month && t.month <= 12 && 1 <= t.day && t.day <= days_in_month(
                t.year,
                t.month,
            ) && t.hour <= 23 && t.minute <= 59 && t.second <= 59 {
                Some(t)
            } else {
                None
            }
        },
        _ => None,
    }
}

} // verus!
