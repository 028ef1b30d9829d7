//! Outside capabilities the verified core calls: the clock, the calendar
//! renderer and the random number source. Each is a thin trusted wrapper from
//! plain values to plain values; everything that decides on their results is
//! verified elsewhere.

use vstd::prelude::*;

verus! {

use crate::date::{MAX_DAY, MIN_DAY, day_in_range, clamp_day};

/// Text of a day number as `YYYY-MM-DD`, as the calendar crate renders it.
pub uninterp spec fn ymd_of(days: int) -> Seq<char>;

/// Relies on `chrono::NaiveDate::from_num_days_from_ce_opt`, which returns
/// the date of a day number counted so that 0001-01-01 is day 1 (`Some` for
/// every day of the years 1 through 9999), and on its `%Y-%m-%d` formatter,
/// whose output depends on the date alone.
#[verifier::external_body]
pub(crate) fn format_day(days: i64) -> (r: Option<String>)
    requires
        day_in_range(days as int),
    ensures
        r is Some,
        r matches Some(s) ==> s@ == ymd_of(days as int),
{
    match chrono::NaiveDate::from_num_days_from_ce_opt(days as i32) {
        Some(d) => Some(d.format("%Y-%m-%d").to_string()),
        None => None,
    }
}

/// Relies on `chrono::Utc::now` for the current UTC time, read off as its day
/// number (0001-01-01 is day 1) by `Datelike::num_days_from_ce`.
#[verifier::external_body]
fn now_day_number() -> (r: i64) {
    chrono::Datelike::num_days_from_ce(&chrono::Utc::now()) as i64
}

/// The current UTC day, clamped into the range the rest of the library asks
/// of a `today` argument: far enough from the first supported day that a
/// random recent day exists, and no later than the last supported day.
pub fn current_day() -> (r: i64)
    ensures
        MIN_DAY + 180 <= r <= MAX_DAY,
{
    let now = now_day_number();
    let clamped = clamp_day(now);
    if clamped < MIN_DAY + 180 {
        MIN_DAY + 180
    } else {
        clamped
    }
}

/// Relies on `fastrand::i64`: a uniform draw from the given range, which
/// panics only when the range is empty.
#[verifier::external_body]
pub(crate) fn random_below(n: i64) -> (r: i64)
    requires
        0 < n,
    ensures
        0 <= r < n,
{
    fastrand::i64(0..n)
}

} // verus!
