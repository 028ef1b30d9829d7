//! The date cursor: the selected day, the shown title and the
//! high-definition flag, mutated only through the transitions here. Each
//! transition returns a new snapshot; the one domain rule is that a forward
//! step never moves the cursor past the current day.

use vstd::prelude::*;
use vstd::string::*;

verus! {

use crate::caps;
use crate::date::{MAX_DAY, MIN_DAY, day_in_range, spec_clamp_day, clamp_day};

/// How many days back the random pick may reach.
pub const RANDOM_WINDOW: i64 = 180;

/// The cursor state: the selected day, the title text shown in the menu, and
/// whether high-definition images are asked for.
pub struct DownloadInfo {
    /// Day number of the selected day.
    pub date: i64,
    /// Title text shown in the menu and offered to the clipboard.
    pub title: String,
    /// Whether the high-definition image is asked for.
    pub hd: bool,
}

/// Where `advance` moves a cursor at `date` by `days`, given the current day:
/// a forward move that would pass `today` is refused, and the result is
/// clamped into the supported range.
pub open spec fn spec_advance(date: int, days: int, today: int) -> int {
    if days > 0 && date + days > today {
        date
    } else {
        spec_clamp_day(date + days)
    }
}

/// The toggled high-definition flag.
pub open spec fn spec_toggle_hd(hd: bool) -> bool {
    !hd
}

impl DownloadInfo {
    /// The cursor names a supported day.
    pub open spec fn wf(&self) -> bool {
        day_in_range(self.date as int)
    }

    /// The startup state: the current day, a placeholder title, no
    /// high definition.
    pub fn new(today: i64) -> (r: Self)
        ensures
            r.wf(),
            r.date as int == spec_clamp_day(today as int),
            r.title@ == "正在下载..."@,
            !r.hd,
    {
        DownloadInfo { date: clamp_day(today), title: String::from_str("正在下载..."), hd: false }
    }

    /// Moves the cursor by `days`, refusing a forward move past `today`.
    pub fn advance(&self, days: i64, today: i64) -> (r: Self)
        requires
            self.wf(),
            day_in_range(today as int),
        ensures
            r.wf(),
            r.date as int == spec_advance(self.date as int, days as int, today as int),
            r.title@ == self.title@,
            r.hd == self.hd,
    {
        if days > 0 && days > today - self.date {
            DownloadInfo { date: self.date, title: self.title.clone(), hd: self.hd }
        } else {
            DownloadInfo {
                date: clamp_day(self.date + days),
                title: self.title.clone(),
                hd: self.hd,
            }
        }
    }

    /// Moves the cursor to `date`, clamped into the supported range.
    pub fn set(&self, date: i64) -> (r: Self)
        ensures
            r.wf(),
            r.date as int == spec_clamp_day(date as int),
            r.title@ == self.title@,
            r.hd == self.hd,
    {
        DownloadInfo { date: clamp_day(date), title: self.title.clone(), hd: self.hd }
    }

    /// A copy of the state, handed by value into each dispatch so that no
    /// worker shares the loop's own state.
    pub fn snapshot(&self) -> (r: Self)
        ensures
            r.date == self.date,
            r.title@ == self.title@,
            r.hd == self.hd,
    {
        DownloadInfo { date: self.date, title: self.title.clone(), hd: self.hd }
    }

    /// Flips the high-definition flag.
    pub fn toggle_hd(&self) -> (r: Self)
        ensures
            r.date == self.date,
            r.title@ == self.title@,
            r.hd == spec_toggle_hd(self.hd),
    {
        DownloadInfo { date: self.date, title: self.title.clone(), hd: !self.hd }
    }
}

/// A forward step of a cursor standing at the current day is refused: the
/// cursor stays at the current day.
pub proof fn lemma_advance_at_today_noop(date: int, days: int, today: int)
    requires
        date == today,
        days > 0,
    ensures
        spec_advance(date, days, today) == date,
{
}

/// Stepping one day back and then one day forward returns the cursor to
/// where it stood, for every cursor day after the first supported day and
/// not past the current day.
pub proof fn lemma_advance_round_trip(date: int, today: int)
    requires
        MIN_DAY < date <= today,
        day_in_range(date),
        day_in_range(today),
    ensures
        spec_advance(spec_advance(date, -1, today), 1, today) == date,
{
}

/// Toggling the high-definition flag twice returns it to its old value.
pub proof fn lemma_toggle_hd_twice(hd: bool)
    ensures
        spec_toggle_hd(spec_toggle_hd(hd)) == hd,
{
}

/// A random day of the window that ends just before `today`: at least
/// `RANDOM_WINDOW` days must lie between the first supported day and `today`
/// for such a day to exist.
pub fn pick_random_date(today: i64) -> (r: i64)
    requires
        MIN_DAY + RANDOM_WINDOW <= today <= MAX_DAY,
    ensures
        today - RANDOM_WINDOW <= r < today,
        day_in_range(r as int),
{
    let offset = caps::random_below(RANDOM_WINDOW);
    today - RANDOM_WINDOW + offset
}

} // verus!
