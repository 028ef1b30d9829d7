use apod_tray::date::{civil_to_days, MIN_DAY};
use apod_tray::state::{pick_random_date, DownloadInfo, RANDOM_WINDOW};

fn info_at(date: i64) -> DownloadInfo {
    DownloadInfo { date, title: String::from("Some Title"), hd: false }
}

#[test]
fn advance_refuses_forward_past_today() {
    let today = civil_to_days(2026, 10, 12);
    let info = info_at(today);
    let moved = info.advance(1, today);
    assert_eq!(moved.date, today);
}

#[test]
fn advance_round_trip() {
    let today = civil_to_days(2026, 10, 12);
    let info = info_at(today - 3);
    let back = info.advance(-1, today);
    assert_eq!(back.date, today - 4);
    let forth = back.advance(1, today);
    assert_eq!(forth.date, info.date);
}

#[test]
fn advance_clamps_at_first_day() {
    let today = civil_to_days(2026, 10, 12);
    let info = info_at(MIN_DAY);
    let moved = info.advance(-1, today);
    assert_eq!(moved.date, MIN_DAY);
}

#[test]
fn advance_keeps_title_and_flag() {
    let today = civil_to_days(2026, 10, 12);
    let info = DownloadInfo { date: today, title: String::from("t"), hd: true };
    let moved = info.advance(-1, today);
    assert_eq!(moved.title, "t");
    assert!(moved.hd);
}

#[test]
fn toggle_hd_twice_restores_flag() {
    let info = info_at(719163);
    let once = info.toggle_hd();
    assert!(once.hd);
    let twice = once.toggle_hd();
    assert_eq!(twice.hd, info.hd);
}

#[test]
fn set_clamps_into_range() {
    let info = info_at(719163);
    assert_eq!(info.set(-9).date, MIN_DAY);
    assert_eq!(info.set(720000).date, 720000);
}

#[test]
fn new_state_is_placeholder_at_today() {
    let today = civil_to_days(2026, 10, 12);
    let info = DownloadInfo::new(today);
    assert_eq!(info.date, today);
    assert_eq!(info.title, "正在下载...");
    assert!(!info.hd);
}

#[test]
fn snapshot_copies_every_field() {
    let info = DownloadInfo { date: 730179, title: String::from("x"), hd: true };
    let copy = info.snapshot();
    assert_eq!(copy.date, info.date);
    assert_eq!(copy.title, info.title);
    assert_eq!(copy.hd, info.hd);
}

#[test]
fn random_day_always_in_window() {
    let today = civil_to_days(2026, 10, 12);
    let mut lowest = today;
    let mut highest = MIN_DAY;
    for _ in 0..20000 {
        let picked = pick_random_date(today);
        assert!(picked >= today - RANDOM_WINDOW);
        assert!(picked < today);
        if picked < lowest {
            lowest = picked;
        }
        if picked > highest {
            highest = picked;
        }
    }
    // Over this many trials the draws cover the window's edges closely.
    assert!(lowest < today - RANDOM_WINDOW + 20);
    assert!(highest >= today - 20);
}
