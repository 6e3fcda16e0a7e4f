//! Date cleaning and parsing: strip every character that is not a
//! digit or a dash, then parse the cleaned text as a dash-separated
//! `year-month-day` date, falling back to a caller-supplied sentinel
//! when the text does not form a valid calendar date.

use vstd::prelude::*;

verus! {

/// Names the class of characters that the `regex` crate's `\d` matches
/// (the Unicode decimal digits); the ASCII digits are among them.
pub uninterp spec fn regex_digit(c: char) -> bool;

/// The characters of `s` kept by date cleaning: those in `regex`'s
/// `\d` class, and the dash.
pub open spec fn cleaned_date_text(s: Seq<char>) -> Seq<char> {
    s.filter(|c: char| regex_digit(c) || c == '-')
}

/// Removes from `raw` every character that is neither a decimal digit
/// nor a dash.
///
/// Relies on `regex::Regex::replace_all` with the pattern `[^\d-]+`
/// and an empty replacement: every maximal run of characters outside
/// the class is deleted, so exactly the characters of the class
/// remain, in order.
#[verifier::external_body]
pub(crate) fn clean_date_text(raw: &str) -> (r: String)
    ensures
        r@ == cleaned_date_text(raw@),
        forall|k: int| 0 <= k < r@.len() ==> regex_digit(#[trigger] r@[k]) || r@[k] == '-',
{
    regex::Regex::new(r"[^\d-]+").unwrap().replace_all(raw, "").into_owned()
}

/// A calendar date, held as plain year, month and day numbers.
#[derive(Clone, Copy, PartialEq, Eq, Structural, Debug)]
pub struct Date {
    pub year: u32,
    pub month: u32,
    pub day: u32,
}

/// Whether `y` is a leap year of the Gregorian calendar.
pub open spec fn is_leap_year(y: int) -> bool {
    y % 4 == 0 && (y % 100 != 0 || y % 400 == 0)
}

/// The number of days of month `m` in year `y`.
pub open spec fn days_in_month(y: int, m: int) -> int {
    if m == 2 {
        if is_leap_year(y) {
            29
        } else {
            28
        }
    } else if m == 4 || m == 6 || m == 9 || m == 11 {
        30
    } else {
        31
    }
}

/// Whether `(y, m, d)` is a calendar date that the ten-character
/// `year-month-day` form can carry.
pub open spec fn valid_ymd(y: int, m: int, d: int) -> bool {
    0 <= y <= 9999 && 1 <= m <= 12 && 1 <= d <= days_in_month(y, m)
}

impl Date {
    /// A well-formed date: a valid calendar date.
    pub open spec fn wf(self) -> bool {
        valid_ymd(self.year as int, self.month as int, self.day as int)
    }
}

/// Whether `c` is an ASCII decimal digit.
pub open spec fn is_digit(c: char) -> bool {
    48 <= c as u32 <= 57
}

/// The numeric value of an ASCII decimal digit.
pub open spec fn digit_value(c: char) -> int {
    c as u32 - 48
}

/// The date denoted by `s` when `s` has exactly the dash-separated
/// form `YYYY-MM-DD` and names a valid calendar date; `None` otherwise.
pub open spec fn spec_parse_date(s: Seq<char>) -> Option<Date> {
    if s.len() == 10 && is_digit(s[0]) && is_digit(s[1]) && is_digit(s[2]) && is_digit(s[3]) && s[4]
        == '-' && is_digit(s[5]) && is_digit(s[6]) && s[7] == '-' && is_digit(s[8]) && is_digit(
        s[9],
    ) {
        let y = 1000 * digit_value(s[0]) + 100 * digit_value(s[1]) + 10 * digit_value(s[2])
            + digit_value(s[3]);
        let m = 10 * digit_value(s[5]) + digit_value(s[6]);
        let d = 10 * digit_value(s[8]) + digit_value(s[9]);
        if valid_ymd(y, m, d) {
            Some(Date { year: y as u32, month: m as u32, day: d as u32 })
        } else {
            None
        }
    } else {
        None
    }
}

/// Whether `y` is a leap year.
pub fn leap_year(y: u32) -> (r: bool)
    ensures
        r == is_leap_year(y as int),
{
    y % 4 == 0 && (y % 100 != 0 || y % 400 == 0)
}

/// The number of days of month `m` in year `y`.
pub fn month_length(y: u32, m: u32) -> (r: u32)
    ensures
        r as int == days_in_month(y as int, m as int),
{
    if m == 2 {
        if leap_year(y) {
            29
        } else {
            28
        }
    } else if m == 4 || m == 6 || m == 9 || m == 11 {
        30
    } else {
        31
    }
}

/// Reads one ASCII digit, or fails on any other character.
pub(crate) fn digit_of(c: char) -> (r: Option<u32>)
    ensures
        is_digit(c) ==> r == Some(digit_value(c) as u32),
        !is_digit(c) ==> r is None,
        r is Some ==> r.unwrap() <= 9,
{
    let u = c as u32;
    if 48 <= u && u <= 57 {
        Some(u - 48)
    } else {
        None
    }
}

/// Parses text of the exact form `YYYY-MM-DD` into a calendar date;
/// any other text, and any triple that is not a valid calendar date,
/// yields `None`.
pub fn parse_date(s: &str) -> (r: Option<Date>)
    ensures
        r == spec_parse_date(s@),
        r is Some ==> r.unwrap().wf(),
{
    let n = s.unicode_len();
    if n != 10 {
        return None;
    }
    if s.get_char(4) != '-' || s.get_char(7) != '-' {
        return None;
    }
    let d0 = digit_of(s.get_char(0));
    let d1 = digit_of(s.get_char(1));
    let d2 = digit_of(s.get_char(2));
    let d3 = digit_of(s.get_char(3));
    let d5 = digit_of(s.get_char(5));
    let d6 = digit_of(s.get_char(6));
    let d8 = digit_of(s.get_char(8));
    let d9 = digit_of(s.get_char(9));
    match (d0, d1, d2, d3, d5, d6, d8, d9) {
        (
            Some(a),
            Some(b),
            Some(c),
            Some(d),
            Some(e),
            Some(f),
            Some(g),
            Some(h),
        ) => {
            let y = 1000 * a + 100 * b + 10 * c + d;
            let m = 10 * e + f;
            let day = 10 * g + h;
            if 1 <= m && m <= 12 && 1 <= day && day <= month_length(y, m) {
                Some(Date { year: y, month: m, day })
            } else {
                None
            }
        },
        _ => None,
    }
}

/// The date that cleaning and parsing `raw` yields: the parsed date
/// when the cleaned text forms one, else the sentinel `default`.
pub open spec fn spec_date_or_default(raw: Seq<char>, default: Date) -> Date {
    match spec_parse_date(cleaned_date_text(raw)) {
        Some(d) => d,
        None => default,
    }
}

/// Cleans loosely formatted date text and parses it, substituting the
/// sentinel `default` when no valid date remains.  Total: every input
/// yields a date.
pub fn date_or_default(raw: &str, default: Date) -> (d: Date)
    ensures
        d == spec_date_or_default(raw@, default),
        spec_parse_date(cleaned_date_text(raw@)) is None ==> d == default,
        d.wf() || d == default,
{
    let cleaned = clean_date_text(raw);
    match parse_date(cleaned.as_str()) {
        Some(d) => d,
        None => default,
    }
}

/// The customary sentinel for an unset date: the earliest date the
/// pipeline treats as a placeholder.
pub fn sentinel_date() -> (d: Date)
    ensures
        d == (Date { year: 1900, month: 1, day: 1 }),
        d.wf(),
{
    Date { year: 1900, month: 1, day: 1 }
}

/// The character of one decimal digit.
pub open spec fn digit_char_of(n: int) -> char {
    if n == 0 {
        '0'
    } else if n == 1 {
        '1'
    } else if n == 2 {
        '2'
    } else if n == 3 {
        '3'
    } else if n == 4 {
        '4'
    } else if n == 5 {
        '5'
    } else if n == 6 {
        '6'
    } else if n == 7 {
        '7'
    } else if n == 8 {
        '8'
    } else {
        '9'
    }
}

/// The ten-character `YYYY-MM-DD` text of a date.
pub open spec fn date_text(d: Date) -> Seq<char> {
    seq![
        digit_char_of(d.year as int / 1000 % 10),
        digit_char_of(d.year as int / 100 % 10),
        digit_char_of(d.year as int / 10 % 10),
        digit_char_of(d.year as int % 10),
        '-',
        digit_char_of(d.month as int / 10 % 10),
        digit_char_of(d.month as int % 10),
        '-',
        digit_char_of(d.day as int / 10 % 10),
        digit_char_of(d.day as int % 10),
    ]
}

/// One decimal digit as a character.
fn char_of_digit(n: u32) -> (c: char)
    requires
        n <= 9,
    ensures
        c == digit_char_of(n as int),
{
    if n == 0 {
        '0'
    } else if n == 1 {
        '1'
    } else if n == 2 {
        '2'
    } else if n == 3 {
        '3'
    } else if n == 4 {
        '4'
    } else if n == 5 {
        '5'
    } else if n == 6 {
        '6'
    } else if n == 7 {
        '7'
    } else if n == 8 {
        '8'
    } else {
        '9'
    }
}

/// Renders a date in the zero-padded dash-separated `YYYY-MM-DD` form.
pub fn format_date(d: &Date) -> (r: String)
    requires
        d.wf(),
    ensures
        r@ == date_text(*d),
{
    let mut r = String::new();
    crate::text::push_char(&mut r, char_of_digit(d.year / 1000 % 10));
    crate::text::push_char(&mut r, char_of_digit(d.year / 100 % 10));
    crate::text::push_char(&mut r, char_of_digit(d.year / 10 % 10));
    crate::text::push_char(&mut r, char_of_digit(d.year % 10));
    crate::text::push_char(&mut r, '-');
    crate::text::push_char(&mut r, char_of_digit(d.month / 10 % 10));
    crate::text::push_char(&mut r, char_of_digit(d.month % 10));
    crate::text::push_char(&mut r, '-');
    crate::text::push_char(&mut r, char_of_digit(d.day / 10 % 10));
    crate::text::push_char(&mut r, char_of_digit(d.day % 10));
    proof {
        assert(r@ =~= date_text(*d));
    }
    r
}

} // verus!
