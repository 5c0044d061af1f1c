//! Calendar dates for the minimum-published-date filter. A date is held
//! as plain year / month / day numbers; the published timestamps of the
//! remote catalogue are parsed from their `YYYY-MM-DD` prefix, and an
//! unparseable timestamp is treated as no date at all (the filter is
//! fail-open on it).

use vstd::prelude::*;

verus! {

/// A calendar date as plain numbers.
#[derive(Clone, Copy, Debug, PartialEq, Eq, Structural)]
pub struct Date {
    pub year: u32,
    pub month: u32,
    pub day: u32,
}

/// Days of the month `m` of year `y` (proleptic Gregorian).
pub open spec fn spec_days_in_month(y: int, m: int) -> int {
    if m == 2 {
        if y % 4 == 0 && (y % 100 != 0 || y % 400 == 0) {
            29
        } else {
            28
        }
    } else if m == 4 || m == 6 || m == 9 || m == 11 {
        30
    } else {
        31
    }
}

/// A well-formed date: month and day in range for its year.
pub open spec fn date_wf(d: Date) -> bool {
    &&& 1 <= d.month <= 12
    &&& 1 <= d.day <= spec_days_in_month(d.year as int, d.month as int)
}

/// Strict calendar order: year, then month, then day.
pub open spec fn spec_date_lt(a: Date, b: Date) -> bool {
    ||| a.year < b.year
    ||| (a.year == b.year && a.month < b.month)
    ||| (a.year == b.year && a.month == b.month && a.day < b.day)
}

/// `a` is strictly earlier than `b`.
pub fn date_before(a: &Date, b: &Date) -> (r: bool)
    ensures
        r == spec_date_lt(*a, *b),
{
    if a.year != b.year {
        a.year < b.year
    } else if a.month != b.month {
        a.month < b.month
    } else {
        a.day < b.day
    }
}

/// Whether `c` is a decimal digit.
pub open spec fn is_digit(c: char) -> bool {
    48 <= c as u32 <= 57
}

/// The value of the decimal digit `c`.
pub open spec fn digit_val(c: char) -> int {
    c as u32 - 48
}

/// What `parse_date` returns: `Some` exactly when the text starts with a
/// well-formed `YYYY-MM-DD` date, and then that date.
pub open spec fn spec_parse_date(s: Seq<char>) -> Option<Date> {
    if s.len() >= 10 && is_digit(s[0]) && is_digit(s[1]) && is_digit(s[2]) && is_digit(s[3])
        && s[4] == '-' && is_digit(s[5]) && is_digit(s[6]) && s[7] == '-' && is_digit(s[8])
        && is_digit(s[9]) {
        let y = digit_val(s[0]) * 1000 + digit_val(s[1]) * 100 + digit_val(s[2]) * 10
            + digit_val(s[3]);
        let m = digit_val(s[5]) * 10 + digit_val(s[6]);
        let d = digit_val(s[8]) * 10 + digit_val(s[9]);
        if 1 <= m <= 12 && 1 <= d <= spec_days_in_month(y, m) {
            Some(Date { year: y as u32, month: m as u32, day: d as u32 })
        } else {
            None
        }
    } else {
        None
    }
}

/// Read the decimal digit at position `i`, if there is one.
fn digit_at(s: &str, i: usize) -> (r: Option<u32>)
    requires
        i < s@.len(),
    ensures
        r is Some <==> is_digit(s@[i as int]),
        r matches Some(v) ==> v == digit_val(s@[i as int]),
{
    let c = s.get_char(i);
    let v = c as u32;
    if 48 <= v && v <= 57 {
        Some(v - 48)
    } else {
        None
    }
}

/// Days of the month, executable form.
pub fn days_in_month(y: u32, m: u32) -> (r: u32)
    ensures
        r == spec_days_in_month(y as int, m as int),
{
    if m == 2 {
        if y % 4 == 0 && (y % 100 != 0 || y % 400 == 0) {
            29
        } else {
            28
        }
    } else if m == 4 || m == 6 || m == 9 || m == 11 {
        30
    } else {
        31
    }
}

/// Parse the `YYYY-MM-DD` prefix of `s` into a date. Returns `None` when
/// the prefix is absent, malformed, or names no calendar day; callers
/// treat `None` as "no date known" (fail-open for the published filter,
/// a configuration error for the user-supplied threshold).
pub fn parse_date(s: &str) -> (r: Option<Date>)
    ensures
        r == spec_parse_date(s@),
        r matches Some(d) ==> date_wf(d),
{
    let n = s.unicode_len();
    if n < 10 {
        return None;
    }
    let d0 = digit_at(s, 0);
    let d1 = digit_at(s, 1);
    let d2 = digit_at(s, 2);
    let d3 = digit_at(s, 3);
    if s.get_char(4) != '-' {
        return None;
    }
    let d5 = digit_at(s, 5);
    let d6 = digit_at(s, 6);
    if s.get_char(7) != '-' {
        return None;
    }
    let d8 = digit_at(s, 8);
    let d9 = digit_at(s, 9);
    match (d0, d1, d2, d3, d5, d6, d8, d9) {
        (Some(y0), Some(y1), Some(y2), Some(y3), Some(m0), Some(m1), Some(a0), Some(a1)) => {
            let y: u32 = y0 * 1000 + y1 * 100 + y2 * 10 + y3;
            let m: u32 = m0 * 10 + m1;
            let d: u32 = a0 * 10 + a1;
            if 1 <= m && m <= 12 && 1 <= d && d <= days_in_month(y, m) {
                Some(Date { year: y, month: m, day: d })
            } else {
                None
            }
        },
        _ => None,
    }
}

} // verus!
