//! The event-loop transitions: what a menu action does to the cursor and
//! which side effect it asks for, how a fetch payload updates the shown
//! state, and the request sequence numbers that keep a stale payload from
//! overwriting a fresh one.

use vstd::prelude::*;
use vstd::string::*;

verus! {

use crate::date::{MIN_DAY, day_in_range, spec_clamp_day, spec_days_from_civil, spec_parse_ymd,
    parse_date_days};
use crate::fetch::FetchResult;
use crate::menu::MenuAction;
use crate::state::{DownloadInfo, RANDOM_WINDOW, spec_advance, spec_toggle_hd};

/// The side effect a menu action asks of the surrounding loop.
#[derive(Debug, PartialEq, Eq, Structural)]
pub enum Effect {
    /// Dispatch a fetch for the new cursor state.
    Fetch,
    /// Rebuild the menu, then dispatch a fetch for the new cursor state.
    RebuildAndFetch,
    /// Copy the shown title to the clipboard.
    CopyTitle,
    /// Stop the event loop.
    Quit,
    /// Do nothing.
    Nothing,
}

/// Two cursor states that show the same day, title and flag.
pub open spec fn same_state(a: DownloadInfo, b: DownloadInfo) -> bool {
    a.date == b.date && a.title@ == b.title@ && a.hd == b.hd
}

/// Applies a menu action to the cursor: the day moves step the cursor (never
/// forward past `today`) and ask for a fetch; the high-definition toggle
/// flips the flag and asks for a menu rebuild and a fetch; copying asks for
/// the clipboard only when a title is shown; exit stops the loop.
pub fn handle_action(info: &DownloadInfo, action: &MenuAction, today: i64) -> (r: (
    DownloadInfo,
    Effect,
))
    requires
        info.wf(),
        day_in_range(today as int),
        action is Random ==> MIN_DAY + RANDOM_WINDOW <= today,
    ensures
        r.0.wf(),
        action is Previous ==> r.0.date as int == spec_advance(
            info.date as int,
            -1,
            today as int,
        ) && r.0.title@ == info.title@ && r.0.hd == info.hd && r.1 is Fetch,
        action is Next ==> r.0.date as int == spec_advance(info.date as int, 1, today as int)
            && r.0.title@ == info.title@ && r.0.hd == info.hd && (if r.0.date == info.date {
            r.1 is Nothing
        } else {
            r.1 is Fetch
        }),
        action is Today ==> r.0.date as int == spec_clamp_day(today as int) && r.0.title@
            == info.title@ && r.0.hd == info.hd && r.1 is Fetch,
        action is Random ==> today - RANDOM_WINDOW <= r.0.date < today && r.0.title@
            == info.title@ && r.0.hd == info.hd && r.1 is Fetch,
        action is ToggleHd ==> r.0.date == info.date && r.0.title@ == info.title@ && r.0.hd
            == spec_toggle_hd(info.hd) && r.1 is RebuildAndFetch,
        action is CopyTitle ==> same_state(r.0, *info) && (if info.title@.len() > 0 {
            r.1 is CopyTitle
        } else {
            r.1 is Nothing
        }),
        action is Exit ==> same_state(r.0, *info) && r.1 is Quit,
{
    match action {
        MenuAction::Previous => (info.advance(-1, today), Effect::Fetch),
        MenuAction::Next => {
            let moved = info.advance(1, today);
            if moved.date == info.date {
                (moved, Effect::Nothing)
            } else {
                (moved, Effect::Fetch)
            }
        },
        MenuAction::Today => (info.set(today), Effect::Fetch),
        MenuAction::Random => {
            let picked = crate::state::pick_random_date(today);
            (info.set(picked), Effect::Fetch)
        },
        MenuAction::ToggleHd => (info.toggle_hd(), Effect::RebuildAndFetch),
        MenuAction::CopyTitle => {
            let snap = info.snapshot();
            if info.title.as_str().is_empty() {
                (snap, Effect::Nothing)
            } else {
                (snap, Effect::CopyTitle)
            }
        },
        MenuAction::Exit => (info.snapshot(), Effect::Quit),
    }
}

/// The title text shown once a payload arrived: the image title, a dash, and
/// the image's own date text.
pub open spec fn spec_title_with_date(title: Seq<char>, date: Seq<char>) -> Seq<char> {
    title + " - "@ + date
}

/// How a payload updates the cursor: with both a `date` and a `title` field
/// the title text becomes "title - date", the cursor moves to the payload's
/// day where its date text parses (staying put where it does not), and the
/// menu is rebuilt; with either field missing nothing changes.
pub open spec fn applied_result(
    info: DownloadInfo,
    fields: FetchResult,
    out: DownloadInfo,
    rebuilt: bool,
) -> bool {
    match (fields.spec_get("date"@), fields.spec_get("title"@)) {
        (Some(ds), Some(ts)) => {
            &&& rebuilt
            &&& out.hd == info.hd
            &&& out.title@ == spec_title_with_date(ts, ds)
            &&& out.date as int == (match spec_parse_ymd(ds) {
                Some(t) => spec_clamp_day(spec_days_from_civil(t.0, t.1, t.2)),
                None => info.date as int,
            })
        },
        _ => same_state(out, info) && !rebuilt,
    }
}

/// Applies a fetch payload to the cursor state; the flag says whether the
/// menu must be rebuilt.
pub fn apply_result(info: &DownloadInfo, fields: &FetchResult) -> (r: (DownloadInfo, bool))
    requires
        info.wf(),
    ensures
        r.0.wf(),
        applied_result(*info, *fields, r.0, r.1),
{
    let ds = fields.get("date");
    let ts = fields.get("title");
    match (ds, ts) {
        (Some(ds), Some(ts)) => {
            let mut title = ts.clone();
            title.append(" - ");
            title.append(ds.as_str());
            let date = match parse_date_days(ds.as_str()) {
                Some(n) => n,
                None => info.date,
            };
            (DownloadInfo { date, title, hd: info.hd }, true)
        },
        _ => (info.snapshot(), false),
    }
}

/// The sequence number of the latest dispatched fetch. A payload is applied
/// only when it answers the latest dispatch, so a stale answer that arrives
/// late never overwrites a fresher one.
pub struct RequestSeq {
    /// The number handed to the latest dispatch; 0 before the first.
    pub latest: u64,
}

impl RequestSeq {
    /// Before any dispatch.
    pub fn new() -> (r: Self)
        ensures
            r.latest == 0,
    {
        RequestSeq { latest: 0 }
    }

    /// The number for the next dispatch. The count saturates at the largest
    /// representable number.
    pub fn next(&mut self) -> (s: u64)
        ensures
            final(self).latest as int == (if old(self).latest < u64::MAX {
                old(self).latest + 1
            } else {
                u64::MAX as int
            }),
            s == final(self).latest,
    {
        if self.latest < u64::MAX {
            self.latest = self.latest + 1;
        }
        self.latest
    }

    /// Whether `s` numbers the latest dispatch.
    pub fn is_current(&self, s: u64) -> (r: bool)
        ensures
            r == (s == self.latest),
    {
        s == self.latest
    }
}

/// Applies a payload only when it answers the latest dispatch: a stale
/// payload leaves the state as it stands and asks for no rebuild.
pub fn accept_result(info: &DownloadInfo, seq: &RequestSeq, s: u64, fields: &FetchResult) -> (r: (
    DownloadInfo,
    bool,
))
    requires
        info.wf(),
    ensures
        r.0.wf(),
        s == seq.latest ==> applied_result(*info, *fields, r.0, r.1),
        s != seq.latest ==> same_state(r.0, *info) && !r.1,
{
    if seq.is_current(s) {
        apply_result(info, fields)
    } else {
        (info.snapshot(), false)
    }
}

} // verus!
