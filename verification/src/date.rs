//! Calendar dates as day numbers.
//!
//! A date is held as its day number in the proleptic Gregorian calendar,
//! counted so that 0001-01-01 is day 1 (and 1970-01-01 is day 719163). The
//! library supports the days of the years 1 through 9999. The conversion from
//! a year-month-day triple to a day number, and the parser for `YYYY-MM-DD`
//! text, are verified here; rendering a day number back to text is delegated
//! to the calendar crate (see `caps`).

use vstd::prelude::*;
use vstd::string::*;

verus! {

/// Day number of 0001-01-01, the first supported day.
pub const MIN_DAY: i64 = 1;

/// Day number of 9999-12-31, the last supported day.
pub const MAX_DAY: i64 = 3652059;

/// A day number the library supports.
pub open spec fn day_in_range(d: int) -> bool {
    MIN_DAY <= d <= MAX_DAY
}

/// An arbitrary day number, clamped into the supported range.
pub open spec fn spec_clamp_day(d: int) -> int {
    if d < MIN_DAY {
        MIN_DAY as int
    } else if d > MAX_DAY {
        MAX_DAY as int
    } else {
        d
    }
}

/// Clamps an arbitrary day number into the supported range.
pub fn clamp_day(d: i64) -> (r: i64)
    ensures
        r as int == spec_clamp_day(d as int),
        day_in_range(r as int),
{
    if d < MIN_DAY {
        MIN_DAY
    } else if d > MAX_DAY {
        MAX_DAY
    } else {
        d
    }
}

/// A leap year of the Gregorian calendar.
pub open spec fn spec_is_leap_year(y: int) -> bool {
    y % 4 == 0 && (y % 100 != 0 || y % 400 == 0)
}

/// Whether `y` is a leap year.
pub fn is_leap_year(y: i64) -> (r: bool)
    requires
        0 <= y <= 9999,
    ensures
        r == spec_is_leap_year(y as int),
{
    y % 4 == 0 && (y % 100 != 0 || y % 400 == 0)
}

/// The number of days of month `m` of year `y`.
pub open spec fn spec_days_in_month(y: int, m: int) -> int {
    if m == 2 {
        if spec_is_leap_year(y) {
            29
        } else {
            28
        }
    } else if m == 4 || m == 6 || m == 9 || m == 11 {
        30
    } else {
        31
    }
}

/// The number of days of month `m` of year `y`.
pub fn days_in_month(y: i64, m: i64) -> (r: i64)
    requires
        0 <= y <= 9999,
        1 <= m <= 12,
    ensures
        r as int == spec_days_in_month(y as int, m as int),
{
    if m == 2 {
        if is_leap_year(y) {
            29
        } else {
            28
        }
    } else if m == 4 || m == 6 || m == 9 || m == 11 {
        30
    } else {
        31
    }
}

/// A year-month-day triple that names a day of a supported year.
pub open spec fn spec_valid_ymd(y: int, m: int, d: int) -> bool {
    1 <= y <= 9999 && 1 <= m <= 12 && 1 <= d <= spec_days_in_month(y, m)
}

/// The day number of the day `y`-`m`-`d`, by the standard era decomposition:
/// years are counted from March so that the leap day ends a year, whole
/// 400-year eras of 146097 days are split off, and the rest is summed from
/// the year of the era and the day of the March-based year.
pub open spec fn spec_days_from_civil(y: int, m: int, d: int) -> int {
    let yy = if m <= 2 {
        y - 1
    } else {
        y
    };
    let era = yy / 400;
    let yoe = yy % 400;
    let mp = if m <= 2 {
        m + 9
    } else {
        m - 3
    };
    let doy = (153 * mp + 2) / 5 + d - 1;
    let doe = yoe * 365 + yoe / 4 - yoe / 100 + doy;
    era * 146097 + doe - 305
}

/// The day number of the day `y`-`m`-`d`.
pub fn civil_to_days(y: i64, m: i64, d: i64) -> (r: i64)
    requires
        spec_valid_ymd(y as int, m as int, d as int),
    ensures
        r as int == spec_days_from_civil(y as int, m as int, d as int),
{
    let yy: i64 = if m <= 2 {
        y - 1
    } else {
        y
    };
    let era: i64 = yy / 400;
    let yoe: i64 = yy % 400;
    let mp: i64 = if m <= 2 {
        m + 9
    } else {
        m - 3
    };
    let doy: i64 = (153 * mp + 2) / 5 + d - 1;
    let doe: i64 = yoe * 365 + yoe / 4 - yoe / 100 + doy;
    era * 146097 + doe - 305
}

/// A decimal digit.
pub open spec fn spec_is_digit(c: char) -> bool {
    '0' <= c && c <= '9'
}

/// The value of a decimal digit.
pub open spec fn spec_digit_val(c: char) -> int {
    c as int - '0' as int
}

/// What `YYYY-MM-DD` text names: ten characters, digits in the year, month
/// and day positions, dashes between, and a triple that is a day of a
/// supported year; anything else parses to nothing.
pub open spec fn spec_parse_ymd(s: Seq<char>) -> Option<(int, int, int)> {
    if s.len() == 10 && spec_is_digit(s[0]) && spec_is_digit(s[1]) && spec_is_digit(s[2])
        && spec_is_digit(s[3]) && s[4] == '-' && spec_is_digit(s[5]) && spec_is_digit(s[6]) && s[7]
        == '-' && spec_is_digit(s[8]) && spec_is_digit(s[9]) {
        let y = spec_digit_val(s[0]) * 1000 + spec_digit_val(s[1]) * 100 + spec_digit_val(s[2]) * 10
            + spec_digit_val(s[3]);
        let m = spec_digit_val(s[5]) * 10 + spec_digit_val(s[6]);
        let d = spec_digit_val(s[8]) * 10 + spec_digit_val(s[9]);
        if spec_valid_ymd(y, m, d) {
            Some((y, m, d))
        } else {
            None
        }
    } else {
        None
    }
}

/// The value of the digit `c`, or nothing when `c` is no digit.
fn digit_val(c: char) -> (r: Option<i64>)
    ensures
        r matches Some(v) ==> spec_is_digit(c) && v as int == spec_digit_val(c),
        r is None ==> !spec_is_digit(c),
{
    if '0' <= c && c <= '9' {
        Some(c as i64 - '0' as i64)
    } else {
        None
    }
}

/// Parses `YYYY-MM-DD` text into its year-month-day triple.
pub fn parse_ymd(s: &str) -> (r: Option<(i64, i64, i64)>)
    ensures
        r matches Some(t) ==> spec_parse_ymd(s@) == Some(
            (t.0 as int, t.1 as int, t.2 as int),
        ),
        r is None ==> spec_parse_ymd(s@) is None,
{
    if s.unicode_len() != 10 {
        return None;
    }
    let c0 = s.get_char(0);
    let c1 = s.get_char(1);
    let c2 = s.get_char(2);
    let c3 = s.get_char(3);
    let c4 = s.get_char(4);
    let c5 = s.get_char(5);
    let c6 = s.get_char(6);
    let c7 = s.get_char(7);
    let c8 = s.get_char(8);
    let c9 = s.get_char(9);
    if c4 != '-' || c7 != '-' {
        return None;
    }
    let (d0, d1, d2, d3, d5, d6, d8, d9) = match (
        digit_val(c0),
        digit_val(c1),
        digit_val(c2),
        digit_val(c3),
        digit_val(c5),
        digit_val(c6),
        digit_val(c8),
        digit_val(c9),
    ) {
        (
            Some(d0),
            Some(d1),
            Some(d2),
            Some(d3),
            Some(d5),
            Some(d6),
            Some(d8),
            Some(d9),
        ) => (d0, d1, d2, d3, d5, d6, d8, d9),
        _ => {
            return None;
        },
    };
    let y = d0 * 1000 + d1 * 100 + d2 * 10 + d3;
    let m = d5 * 10 + d6;
    let d = d8 * 10 + d9;
    if y < 1 || m < 1 || m > 12 {
        return None;
    }
    if d < 1 || d > days_in_month(y, m) {
        return None;
    }
    Some((y, m, d))
}

/// Parses `YYYY-MM-DD` text into a day number of the supported range.
pub fn parse_date_days(s: &str) -> (r: Option<i64>)
    ensures
        r matches Some(n) ==> (spec_parse_ymd(s@) matches Some(t) && n as int == spec_clamp_day(
            spec_days_from_civil(t.0, t.1, t.2),
        )),
        r is None ==> spec_parse_ymd(s@) is None,
{
    match parse_ymd(s) {
        Some((y, m, d)) => Some(clamp_day(civil_to_days(y, m, d))),
        None => None,
    }
}

} // verus!
