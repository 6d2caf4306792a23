use countingsheep::error::AppError;
use countingsheep::json::JsonValue;
use countingsheep::producer::{
    publish_failure, record_headers, serialize_flattened, FakeProducer, ProduceError, ProducedMessage,
    Producer,
};
use countingsheep::sheep::Sheep;
use countingsheep::stamp::{stamp, AcceptedSheep};

fn message() -> ProducedMessage {
    ProducedMessage {
        key: "customer-1".into(),
        payload: b"{}".to_vec(),
        specversion: "1.0".into(),
        received_at_unix: 0,
    }
}

fn nanos(year: i32, month: u8, day: u8, hour: u8, minute: u8, second: u8) -> i128 {
    time::Date::from_calendar_date(year, time::Month::try_from(month).unwrap(), day)
        .unwrap()
        .with_hms(hour, minute, second)
        .unwrap()
        .assume_utc()
        .unix_timestamp_nanos()
}

fn sample_sheep() -> Sheep {
    Sheep {
        id: "a-1".into(),
        source: "/svc".into(),
        event_type: "usage.created".into(),
        specversion: "1.0".into(),
        subject: "customer-1".into(),
        time: Some(nanos(2026, 6, 20, 8, 30, 0)),
        data: None,
        datacontenttype: None,
        dataschema: None,
    }
}

fn entries(v: &JsonValue) -> &Vec<(String, JsonValue)> {
    match v {
        JsonValue::Object(e) => e,
        other => panic!("expected an object, got {other:?}"),
    }
}

fn field<'a>(v: &'a JsonValue, key: &str) -> &'a JsonValue {
    entries(v)
        .iter()
        .find(|(k, _)| k == key)
        .map(|(_, value)| value)
        .unwrap_or_else(|| panic!("missing {key}"))
}

#[test]
fn records_produced_messages() {
    let mut p = FakeProducer::new();
    p.produce(&message()).unwrap();
    assert_eq!(p.produced().len(), 1);
    assert_eq!(p.produced()[0].key, "customer-1");
}

#[test]
fn failing_mode_returns_queue_full() {
    let mut p = FakeProducer::failing_queue_full();
    assert!(matches!(p.produce(&message()), Err(ProduceError::QueueFull)));
    assert!(p.produced().is_empty());
}

#[test]
fn fake_producer_keeps_messages_in_order() {
    let mut p = FakeProducer::new();
    let mut second = message();
    second.key = "customer-2".into();
    p.produce(&message()).unwrap();
    p.produce(&second).unwrap();
    p.flush(std::time::Duration::from_millis(1));
    let produced = p.produced();
    assert_eq!(produced, vec![message(), second]);
}

#[test]
fn serialize_flattened_unix_time() {
    let accepted = stamp(sample_sheep(), nanos(2026, 6, 26, 10, 0, 0));
    let flat = serialize_flattened(accepted);
    assert_eq!(field(&flat.payload, "time"), &JsonValue::Int(1_781_944_200));
}

#[test]
fn serialize_flattened_embeds_data() {
    let mut sheep = sample_sheep();
    sheep.data = Some(JsonValue::Object(vec![("tokens".to_string(), JsonValue::UInt(42))]));
    let flat = serialize_flattened(stamp(sheep, nanos(2026, 6, 26, 10, 0, 0)));
    assert_eq!(
        field(&flat.payload, "data"),
        &JsonValue::Object(vec![("tokens".to_string(), JsonValue::UInt(42))])
    );
}

#[test]
fn serialize_flattened_null_data_when_absent() {
    let flat = serialize_flattened(stamp(sample_sheep(), nanos(2026, 6, 26, 10, 0, 0)));
    assert_eq!(field(&flat.payload, "data"), &JsonValue::Null);
}

#[test]
fn serialize_flattened_key_is_subject() {
    let flat = serialize_flattened(stamp(sample_sheep(), nanos(2026, 6, 26, 10, 0, 0)));
    assert_eq!(flat.key, "customer-1");
}

#[test]
fn serialize_flattened_received_at_is_our_clock() {
    let flat = serialize_flattened(stamp(sample_sheep(), nanos(2026, 6, 26, 10, 0, 0)));
    assert_eq!(flat.received_at_unix, 1_782_468_000);
    assert_eq!(flat.specversion, "1.0");
}

#[test]
fn serialize_flattened_payload_has_the_metering_fields_in_order() {
    let flat = serialize_flattened(stamp(sample_sheep(), nanos(2026, 6, 26, 10, 0, 0)));
    let keys: Vec<&str> = entries(&flat.payload).iter().map(|(k, _)| k.as_str()).collect();
    assert_eq!(keys, vec!["id", "type", "source", "subject", "time", "data"]);
    assert_eq!(field(&flat.payload, "id"), &JsonValue::Str("a-1".into()));
    assert_eq!(field(&flat.payload, "type"), &JsonValue::Str("usage.created".into()));
    assert_eq!(field(&flat.payload, "source"), &JsonValue::Str("/svc".into()));
}

#[test]
fn serialize_flattened_rounds_pre_epoch_seconds_toward_the_past() {
    let mut sheep = sample_sheep();
    sheep.time = Some(-1_500_000_000);
    let accepted = AcceptedSheep { sheep, occurred_at: -1_500_000_000, received_at: -1 };
    let flat = serialize_flattened(accepted);
    assert_eq!(field(&flat.payload, "time"), &JsonValue::Int(-2));
    assert_eq!(flat.received_at_unix, -1);
}

#[test]
fn record_headers_carry_specversion_and_received_at() {
    let mut m = message();
    m.received_at_unix = 1_782_468_000;
    assert_eq!(
        record_headers(&m),
        vec![
            ("specversion".to_string(), "1.0".to_string()),
            ("received_at".to_string(), "1782468000".to_string())
        ]
    );
    m.received_at_unix = -42;
    assert_eq!(record_headers(&m)[1].1, "-42");
    m.received_at_unix = i64::MIN;
    assert_eq!(record_headers(&m)[1].1, i64::MIN.to_string());
    m.received_at_unix = 0;
    assert_eq!(record_headers(&m)[1].1, "0");
}

#[test]
fn publish_failure_of_a_full_queue_is_503() {
    let (status, _) = publish_failure(ProduceError::QueueFull).into_status_and_body();
    assert_eq!(status, 503);
    assert!(matches!(
        publish_failure(ProduceError::QueueFull),
        AppError::ServiceUnavailable(m) if m == "kafka queue full"
    ));
}

#[test]
fn publish_failure_of_a_backend_error_is_500() {
    let error = publish_failure(ProduceError::Backend("broker gone".into()));
    assert!(matches!(error, AppError::Internal(_)));
    let (status, body) = error.into_status_and_body();
    assert_eq!(status, 500);
    assert!(!format!("{body:?}").contains("broker gone"));
}

#[test]
fn backend_failure_keeps_its_message_as_the_cause() {
    let error = publish_failure(ProduceError::Backend("broker gone".into()));
    let report = countingsheep::error::exception_report(&error).expect("internal errors are reported");
    assert_eq!(report.value, "broker gone");
}
