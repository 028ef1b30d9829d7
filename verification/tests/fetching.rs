use apod_tray::date::civil_to_days;
use apod_tray::fetch::{
    finish_fetch, request_url, start_fetch, status_needs_body, FetchError, FetchResult,
    ResponseEvent, WalkStep, EARLIEST_DAY,
};

const URL_PREFIX: &str = "https://api.nasa.gov/planetary/apod?api_key=DEMO_KEY&date=";

fn payload(pairs: &[(&str, &str)]) -> FetchResult {
    FetchResult {
        pairs: pairs.iter().map(|(k, v)| (k.to_string(), v.to_string())).collect(),
    }
}

#[test]
fn request_url_renders_the_date() {
    assert_eq!(request_url(719163), format!("{URL_PREFIX}1970-01-01"));
    assert_eq!(request_url(civil_to_days(2026, 3, 7)), format!("{URL_PREFIX}2026-03-07"));
}

#[test]
fn day_walk_steps_back_exactly_twice() {
    let d = civil_to_days(2024, 1, 10);
    let (mut walk, url) = start_fetch(d, false);
    assert_eq!(url, format!("{URL_PREFIX}2024-01-10"));

    let step = walk.on_response(ResponseEvent::Status { code: 404 });
    match step {
        WalkStep::Retry { url } => assert_eq!(url, format!("{URL_PREFIX}2024-01-09")),
        _ => panic!("expected a retry"),
    }

    let step = walk.on_response(ResponseEvent::Status { code: 404 });
    match step {
        WalkStep::Retry { url } => assert_eq!(url, format!("{URL_PREFIX}2024-01-08")),
        _ => panic!("expected a retry"),
    }
    assert_eq!(walk.date, d - 2);

    let fields = payload(&[("url", "https://example.org/d2.jpg"), ("title", "Two Back")]);
    let step = walk.on_response(ResponseEvent::Payload { fields });
    match step {
        WalkStep::Apply { url, fields } => {
            assert_eq!(url, "https://example.org/d2.jpg");
            assert_eq!(fields.get("title"), Some(&"Two Back".to_string()));
        }
        _ => panic!("expected the walked-to payload to apply"),
    }
    assert_eq!(walk.date, d - 2);
}

#[test]
fn bad_request_status_also_walks() {
    let d = civil_to_days(2024, 1, 10);
    let (mut walk, _) = start_fetch(d, false);
    match walk.on_response(ResponseEvent::Status { code: 400 }) {
        WalkStep::Retry { .. } => {}
        _ => panic!("expected a retry"),
    }
    assert_eq!(walk.date, d - 1);
}

#[test]
fn missing_hd_field_fails_instead_of_falling_back() {
    let d = civil_to_days(2024, 1, 10);
    let (mut walk, _) = start_fetch(d, true);
    let fields = payload(&[("url", "https://example.org/sd.jpg"), ("title", "No HD")]);
    match walk.on_response(ResponseEvent::Payload { fields }) {
        WalkStep::Fail { err } => assert_eq!(err, FetchError::MissingField { hd: true }),
        _ => panic!("a payload without hdurl must fail in hd mode"),
    }
}

#[test]
fn hd_flag_picks_the_hd_field() {
    let d = civil_to_days(2024, 1, 10);
    let fields = payload(&[("url", "https://example.org/sd.jpg"), ("hdurl", "https://example.org/hd.jpg")]);
    let (mut walk, _) = start_fetch(d, true);
    match walk.on_response(ResponseEvent::Payload { fields }) {
        WalkStep::Apply { url, .. } => assert_eq!(url, "https://example.org/hd.jpg"),
        _ => panic!("expected an apply"),
    }

    let fields = payload(&[("url", "https://example.org/sd.jpg"), ("hdurl", "https://example.org/hd.jpg")]);
    let (mut walk, _) = start_fetch(d, false);
    match walk.on_response(ResponseEvent::Payload { fields }) {
        WalkStep::Apply { url, .. } => assert_eq!(url, "https://example.org/sd.jpg"),
        _ => panic!("expected an apply"),
    }
}

#[test]
fn network_failure_fails_the_fetch() {
    let (mut walk, _) = start_fetch(civil_to_days(2024, 1, 10), false);
    match walk.on_response(ResponseEvent::NetworkFailed) {
        WalkStep::Fail { err } => assert_eq!(err, FetchError::Network),
        _ => panic!("expected a failure"),
    }
}

#[test]
fn other_statuses_fail_without_walking() {
    let d = civil_to_days(2024, 1, 10);
    let (mut walk, _) = start_fetch(d, false);
    match walk.on_response(ResponseEvent::Status { code: 500 }) {
        WalkStep::Fail { err } => assert_eq!(err, FetchError::Http { status: 500 }),
        _ => panic!("expected a failure"),
    }
    assert_eq!(walk.date, d);
}

#[test]
fn walk_stops_at_the_earliest_day() {
    let (mut walk, _) = start_fetch(EARLIEST_DAY, false);
    match walk.on_response(ResponseEvent::Status { code: 404 }) {
        WalkStep::Fail { err } => assert_eq!(err, FetchError::Http { status: 404 }),
        _ => panic!("the walk must not step below its floor"),
    }
    assert_eq!(walk.date, EARLIEST_DAY);
}

#[test]
fn finish_fetch_passes_the_payload_through() {
    let fields = payload(&[("title", "Kept")]);
    match finish_fetch(fields, true) {
        Ok(f) => assert_eq!(f.get("title"), Some(&"Kept".to_string())),
        Err(_) => panic!("a set wallpaper must finish the fetch"),
    }
}

#[test]
fn finish_fetch_reports_wallpaper_failure() {
    let fields = payload(&[("title", "Lost")]);
    assert_eq!(finish_fetch(fields, false).err(), Some(FetchError::Wallpaper));
}

#[test]
fn fetch_result_lookup_takes_first_match() {
    let fields = payload(&[("k", "first"), ("k", "second"), ("other", "x")]);
    assert_eq!(fields.get("k"), Some(&"first".to_string()));
    assert_eq!(fields.get("other"), Some(&"x".to_string()));
    assert_eq!(fields.get("missing"), None);
    assert_eq!(FetchResult::new().get("k"), None);
}

#[test]
fn body_is_decoded_for_success_statuses_only() {
    assert!(status_needs_body(200));
    assert!(status_needs_body(299));
    assert!(!status_needs_body(300));
    assert!(!status_needs_body(404));
    assert!(!status_needs_body(199));
}
