use proxy_detector::timezone::{
    format_js_date, format_js_time, iana_to_windows, resolve, timezone_from_lookup_body, Moment,
    TzError,
};

#[test]
fn resolve_utc() {
    let info = resolve("UTC").unwrap();
    assert_eq!(info.offset_minutes, 0);
    assert_eq!(info.windows_zone, "UTC");
    assert_eq!(info.iana_name, "UTC");
    assert_eq!(info.resolved_epoch, info.system_epoch);
    // The fixed probe instant, July 1 of year 1113 at UTC.
    assert_eq!(info.resolved_epoch, -27028684800000);
}

#[test]
fn resolve_unknown_zone_fails() {
    assert_eq!(resolve("Not/A/Zone").unwrap_err(), TzError::UnknownZone);
    assert_eq!(resolve("").unwrap_err(), TzError::UnknownZone);
}

#[test]
fn resolve_known_zone_keeps_name_and_label() {
    let info = resolve("Europe/Berlin").unwrap();
    assert_eq!(info.iana_name, "Europe/Berlin");
    assert_eq!(info.windows_zone, "W. Europe Standard Time");
    assert_eq!(info.resolved_epoch, info.system_epoch);
}

#[test]
fn windows_label_table() {
    assert_eq!(iana_to_windows("America/New_York"), "Eastern Standard Time");
    assert_eq!(iana_to_windows("Asia/Tokyo"), "Tokyo Standard Time");
    assert_eq!(iana_to_windows("Australia/Sydney"), "AUS Eastern Standard Time");
    assert_eq!(iana_to_windows("Europe/Kyiv"), "FLE Standard Time");
    assert_eq!(iana_to_windows("Etc/UTC"), "UTC");
    assert_eq!(iana_to_windows("Etc/GMT"), "GMT Standard Time");
    // Unmapped names pass through unchanged.
    assert_eq!(iana_to_windows("Mars/Olympus_Mons"), "Mars/Olympus_Mons");
}

fn sample_moment() -> Moment {
    Moment {
        offset_seconds: -18000,
        year: 2024,
        month: 1,
        day: 5,
        hour: 9,
        minute: 3,
        second: 7,
        weekday: 4,
        timestamp_millis: 1704463387000,
    }
}

#[test]
fn js_date_formatting() {
    let m = sample_moment();
    assert_eq!(
        format_js_date(&m, "Eastern Standard Time"),
        "Fri Jan 05 2024 09:03:07 GMT-0500 (Eastern Standard Time)"
    );
}

#[test]
fn js_date_positive_offset() {
    let mut m = sample_moment();
    m.offset_seconds = 19800;
    m.weekday = 0;
    m.month = 12;
    m.day = 31;
    m.hour = 23;
    assert_eq!(
        format_js_date(&m, "India Standard Time"),
        "Mon Dec 31 2024 23:03:07 GMT+0530 (India Standard Time)"
    );
}

#[test]
fn js_time_formatting() {
    let mut m = sample_moment();
    assert_eq!(format_js_time(&m), "9:03:07 AM");
    m.hour = 0;
    assert_eq!(format_js_time(&m), "12:03:07 AM");
    m.hour = 12;
    assert_eq!(format_js_time(&m), "12:03:07 PM");
    m.hour = 13;
    assert_eq!(format_js_time(&m), "1:03:07 PM");
}

#[test]
fn lookup_body_parsing() {
    assert_eq!(
        timezone_from_lookup_body(r#"{"timezone":"Europe/Paris"}"#).as_deref(),
        Some("Europe/Paris")
    );
    assert_eq!(timezone_from_lookup_body(r#"{"timezone":""}"#), None);
    assert_eq!(timezone_from_lookup_body(r#"{}"#), None);
    assert_eq!(timezone_from_lookup_body("not json"), None);
    assert_eq!(timezone_from_lookup_body(r#"{"timezone":42}"#), None);
}
