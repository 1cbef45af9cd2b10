use faucet::health::{health_reply_at, rfc3339_utc};

#[test]
fn epoch_start() {
    assert_eq!(rfc3339_utc(0), "1970-01-01T00:00:00+00:00");
}

#[test]
fn known_instant() {
    assert_eq!(rfc3339_utc(1_700_000_000), "2023-11-14T22:13:20+00:00");
}

#[test]
fn leap_day() {
    assert_eq!(rfc3339_utc(1_582_934_400), "2020-02-29T00:00:00+00:00");
    // The following midnight is the first of March.
    assert_eq!(rfc3339_utc(1_583_020_800), "2020-03-01T00:00:00+00:00");
}

#[test]
fn century_non_leap_year() {
    // 1900 was no leap year; 2000 was. 951782400 is 2000-02-29T00:00:00.
    assert_eq!(rfc3339_utc(951_782_400), "2000-02-29T00:00:00+00:00");
}

#[test]
fn year_boundary() {
    assert_eq!(rfc3339_utc(1_704_067_199), "2023-12-31T23:59:59+00:00");
    assert_eq!(rfc3339_utc(1_704_067_200), "2024-01-01T00:00:00+00:00");
}

#[test]
fn largest_instant() {
    assert_eq!(rfc3339_utc(253_402_300_799), "9999-12-31T23:59:59+00:00");
}

#[test]
fn health_reply_is_well_formed() {
    let r = health_reply_at(1_700_000_000);
    assert_eq!(r.status, "healthy");
    assert_eq!(r.timestamp, "2023-11-14T22:13:20+00:00");
    assert_eq!(r.http_status(), 200);
}

#[test]
fn health_reply_clamps_absurd_clock() {
    let r = health_reply_at(u64::MAX);
    assert_eq!(r.status, "healthy");
    assert_eq!(r.timestamp, "9999-12-31T23:59:59+00:00");
    assert_eq!(r.http_status(), 200);
}
