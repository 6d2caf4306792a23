use countingsheep::instant::{END_UTC_NANOS, MIN_UTC_NANOS};
use countingsheep::sheep::Sheep;
use countingsheep::stamp::stamp;

fn nanos(year: i32, month: u8, day: u8, hour: u8, minute: u8, second: u8) -> i128 {
    time::Date::from_calendar_date(year, time::Month::try_from(month).unwrap(), day)
        .unwrap()
        .with_hms(hour, minute, second)
        .unwrap()
        .assume_utc()
        .unix_timestamp_nanos()
}

fn sheep_with_time(time: Option<i128>) -> Sheep {
    Sheep {
        id: "a-1".into(),
        source: "/svc".into(),
        event_type: "usage.created".into(),
        specversion: "1.0".into(),
        subject: "customer-1".into(),
        time,
        data: None,
        datacontenttype: None,
        dataschema: None,
    }
}

#[test]
fn missing_time_defaults_occurred_at_to_now_equal_to_received_at() {
    let now = nanos(2026, 6, 26, 10, 0, 0);
    let stamped = stamp(sheep_with_time(None), now);
    assert_eq!(stamped.occurred_at, now, "defaulted to now");
    assert_eq!(stamped.received_at, now, "received-at is now");
    assert_eq!(
        stamped.occurred_at, stamped.received_at,
        "when the client sends no time, the two stamps are equal"
    );
}

#[test]
fn present_time_is_preserved_as_occurred_at_independent_of_received_at() {
    let occurred = nanos(2026, 6, 20, 8, 30, 0);
    let now = nanos(2026, 6, 26, 10, 0, 0);
    let stamped = stamp(sheep_with_time(Some(occurred)), now);
    assert_eq!(stamped.occurred_at, occurred, "client time kept verbatim");
    assert_eq!(stamped.received_at, now, "received-at is our clock");
    assert_ne!(stamped.occurred_at, stamped.received_at);
    assert_eq!(stamped.sheep, sheep_with_time(Some(occurred)));
}

#[test]
fn future_occurred_at_is_kept_even_when_after_received_at() {
    let occurred = nanos(2099, 1, 1, 0, 0, 0);
    let now = nanos(2026, 6, 26, 10, 0, 0);
    let stamped = stamp(sheep_with_time(Some(occurred)), now);
    assert_eq!(stamped.occurred_at, occurred);
    assert!(stamped.occurred_at > stamped.received_at);
}

#[test]
fn utc_range_matches_the_time_crate() {
    assert_eq!(MIN_UTC_NANOS, time::Date::MIN.midnight().assume_utc().unix_timestamp_nanos());
    assert_eq!(
        END_UTC_NANOS,
        time::Date::MAX.midnight().assume_utc().unix_timestamp_nanos() + 86_400 * 1_000_000_000
    );
}
