use countingsheep::error::AppError;
use countingsheep::ingest::{create_sheep, create_sheep_at, stamp_all, validate_request, CLOUDEVENTS_BATCH_JSON, CLOUDEVENTS_JSON};
use countingsheep::json::JsonValue;
use countingsheep::producer::{publish_accepted, FakeProducer, ProduceError, ProducedMessage, Producer};
use countingsheep::sheep::validate;
use countingsheep::stamp::{stamp, AcceptedSheep};

const NOW: i128 = 1_782_468_000_000_000_000; // 2026-06-26T10:00:00Z

fn text(v: &str) -> JsonValue {
    JsonValue::Str(v.to_string())
}

fn entries(pairs: &[(&str, &str)]) -> JsonValue {
    JsonValue::Object(pairs.iter().map(|(k, v)| (k.to_string(), text(v))).collect())
}

fn valid_sheep() -> JsonValue {
    entries(&[
        ("id", "a-1"),
        ("source", "/svc"),
        ("type", "usage.created"),
        ("specversion", "1.0"),
        ("subject", "customer-1"),
    ])
}

fn with(key: &str, value: JsonValue) -> JsonValue {
    let JsonValue::Object(mut e) = valid_sheep() else { unreachable!() };
    match e.iter_mut().find(|(k, _)| k == key) {
        Some(entry) => entry.1 = value,
        None => e.push((key.to_string(), value)),
    }
    JsonValue::Object(e)
}

fn without(key: &str) -> JsonValue {
    let JsonValue::Object(mut e) = valid_sheep() else { unreachable!() };
    e.retain(|(k, _)| k != key);
    JsonValue::Object(e)
}

/// The status and, for an error, the `(index, detail)` pairs of the body.
fn answer(content_type: &str, body: Option<JsonValue>, max: usize) -> (u16, Vec<(Option<u64>, String)>) {
    match create_sheep_at(content_type, body, max, NOW).expect("no panic") {
        Ok(_) => (202, vec![]),
        Err(error) => {
            let (status, body) = error.into_status_and_body();
            (status, details(&body))
        }
    }
}

fn details(body: &JsonValue) -> Vec<(Option<u64>, String)> {
    let JsonValue::Object(top) = body else { panic!("envelope must be an object") };
    let JsonValue::Array(items) = &top[0].1 else { panic!("errors must be an array") };
    items
        .iter()
        .map(|item| {
            let JsonValue::Object(fields) = item else { panic!("item must be an object") };
            let mut index = None;
            let mut detail = String::new();
            for (k, v) in fields {
                match (k.as_str(), v) {
                    ("index", JsonValue::UInt(i)) => index = Some(*i),
                    ("detail", JsonValue::Str(d)) => detail = d.clone(),
                    other => panic!("unexpected field {other:?}"),
                }
            }
            (index, detail)
        })
        .collect()
}

fn single(body: JsonValue) -> (u16, Vec<(Option<u64>, String)>) {
    answer(CLOUDEVENTS_JSON, Some(body), 1000)
}

fn batch(events: Vec<JsonValue>, max: usize) -> (u16, Vec<(Option<u64>, String)>) {
    answer(CLOUDEVENTS_BATCH_JSON, Some(JsonValue::Array(events)), max)
}

#[test]
fn accepts_valid_sheep() {
    assert_eq!(single(valid_sheep()), (202, vec![]));
}

#[test]
fn rejects_missing_required_field() {
    assert_eq!(single(without("id")), (400, vec![(None, "id is required".to_string())]));
}

#[test]
fn rejects_empty_required_field() {
    assert_eq!(single(with("id", text(""))), (400, vec![(None, "id must not be empty".to_string())]));
}

#[test]
fn rejects_empty_optional_attribute() {
    assert_eq!(
        single(with("subject", text(""))),
        (400, vec![(None, "subject must not be empty".to_string())])
    );
}

#[test]
fn rejects_bad_specversion() {
    let (status, errors) = single(with("specversion", text("0.3")));
    assert_eq!(status, 400);
    assert!(errors[0].1.contains("specversion"), "detail was {:?}", errors[0].1);
}

#[test]
fn rejects_bad_time() {
    let (status, errors) = single(with("time", text("not-a-date")));
    assert_eq!(status, 400);
    assert!(errors[0].1.contains("RFC 3339"), "detail was {:?}", errors[0].1);
}

#[test]
fn accepts_sheep_with_offset_time() {
    let outcome = create_sheep_at(CLOUDEVENTS_JSON, Some(with("time", text("2026-06-26T12:00:00+02:00"))), 1000, NOW)
        .unwrap()
        .unwrap();
    assert_eq!(outcome.len(), 1);
    assert_eq!(outcome[0].occurred_at, NOW);
    assert_eq!(outcome[0].received_at, NOW);
}

#[test]
fn reports_multiple_errors_at_once() {
    let (status, errors) = single(entries(&[("specversion", "1.0")]));
    assert_eq!(status, 400);
    assert_eq!(errors.len(), 4);
}

#[test]
fn rejects_invalid_json() {
    assert_eq!(
        answer(CLOUDEVENTS_JSON, None, 1000),
        (400, vec![(None, "body must be valid JSON".to_string())])
    );
}

#[test]
fn rejects_wrong_content_type() {
    let (status, errors) = answer("application/json", Some(valid_sheep()), 1000);
    assert_eq!(status, 415);
    assert_eq!(
        errors[0].1,
        "Content-Type must be application/cloudevents+json or application/cloudevents-batch+json"
    );
}

#[test]
fn accepts_case_insensitive_content_type() {
    assert_eq!(
        answer("Application/CloudEvents+JSON; charset=utf-8", Some(valid_sheep()), 1000).0,
        202
    );
    assert_eq!(answer("  APPLICATION/CLOUDEVENTS-BATCH+JSON ;x=y", Some(JsonValue::Array(vec![valid_sheep()])), 1000).0, 202);
}

#[test]
fn rejects_missing_content_type() {
    assert_eq!(answer("", Some(valid_sheep()), 1000).0, 415);
}

#[test]
fn duplicate_submission_is_accepted_twice() {
    assert_eq!(single(valid_sheep()).0, 202);
    assert_eq!(single(valid_sheep()).0, 202);
}

#[test]
fn accepts_batch_of_valid_events() {
    assert_eq!(batch(vec![valid_sheep(), valid_sheep(), valid_sheep()], 1000), (202, vec![]));
}

#[test]
fn accepts_single_element_batch() {
    assert_eq!(batch(vec![valid_sheep()], 1000).0, 202);
}

#[test]
fn duplicate_events_within_a_batch_are_both_accepted() {
    let outcome = create_sheep_at(
        CLOUDEVENTS_BATCH_JSON,
        Some(JsonValue::Array(vec![valid_sheep(), valid_sheep()])),
        1000,
        NOW,
    )
    .unwrap()
    .unwrap();
    assert_eq!(outcome.len(), 2);
}

#[test]
fn rejects_batch_body_that_is_not_an_array() {
    assert_eq!(
        answer(CLOUDEVENTS_BATCH_JSON, Some(valid_sheep()), 1000),
        (400, vec![(None, "batch body must be a JSON array".to_string())])
    );
}

#[test]
fn rejects_array_sent_to_single_content_type() {
    assert_eq!(
        single(JsonValue::Array(vec![valid_sheep()])),
        (400, vec![(None, "body must be a JSON object".to_string())])
    );
}

#[test]
fn rejects_non_object_elements_with_their_index() {
    let (status, errors) = batch(vec![valid_sheep(), JsonValue::UInt(42), JsonValue::Null], 1000);
    assert_eq!(status, 400);
    assert_eq!(
        errors,
        vec![
            (Some(1), "body must be a JSON object".to_string()),
            (Some(2), "body must be a JSON object".to_string())
        ]
    );
}

#[test]
fn rejects_invalid_json_under_batch_content_type() {
    assert_eq!(
        answer(CLOUDEVENTS_BATCH_JSON, None, 1000),
        (400, vec![(None, "body must be valid JSON".to_string())])
    );
}

#[test]
fn scattered_invalid_events_report_correct_indices() {
    let (status, errors) = batch(vec![without("id"), valid_sheep(), without("id")], 1000);
    assert_eq!(status, 400);
    assert_eq!(
        errors,
        vec![(Some(0), "id is required".to_string()), (Some(2), "id is required".to_string())]
    );
    assert!(errors.iter().all(|e| e.0 != Some(1)), "the valid event at index 1 must not appear, got {errors:?}");
}

#[test]
fn collects_every_error_across_events_with_indices() {
    let four_errors = entries(&[("specversion", "1.0")]);
    let three_errors = entries(&[("specversion", "1.0"), ("type", "usage.created")]);
    let (status, errors) = batch(vec![four_errors, three_errors], 1000);
    assert_eq!(status, 400);
    assert_eq!(errors.len(), 7, "expected 7 errors, got {errors:?}");
    assert_eq!(errors.iter().filter(|e| e.0 == Some(0)).count(), 4);
    assert_eq!(errors.iter().filter(|e| e.0 == Some(1)).count(), 3);
}

#[test]
fn rejects_empty_batch() {
    assert_eq!(
        batch(vec![], 1000),
        (400, vec![(None, "batch must contain at least one event".to_string())])
    );
}

#[test]
fn accepts_batch_exactly_at_the_cap() {
    assert_eq!(batch(vec![valid_sheep(), valid_sheep(), valid_sheep()], 3).0, 202);
}

#[test]
fn rejects_batch_one_over_the_cap() {
    assert_eq!(
        batch(vec![valid_sheep(), valid_sheep(), valid_sheep(), valid_sheep()], 3),
        (400, vec![(None, "batch has 4 events, but the maximum is 3".to_string())])
    );
}

#[test]
fn cap_is_checked_before_validation() {
    let invalid = || entries(&[("specversion", "1.0")]);
    let (status, errors) = batch(vec![invalid(), invalid(), invalid()], 2);
    assert_eq!(status, 400);
    assert_eq!(errors.len(), 1, "expected only the cap error, got {errors:?}");
    assert_eq!(errors[0].1, "batch has 3 events, but the maximum is 2");
}

#[test]
fn batch_events_share_one_received_at() {
    let outcome = create_sheep_at(
        CLOUDEVENTS_BATCH_JSON,
        Some(JsonValue::Array(vec![valid_sheep(), with("time", text("2026-06-20T08:30:00Z"))])),
        1000,
        NOW,
    )
    .unwrap()
    .unwrap();
    assert_eq!(outcome.len(), 2);
    assert!(outcome.iter().all(|a| a.received_at == NOW));
    assert_eq!(outcome[0].occurred_at, NOW);
    assert_eq!(outcome[1].occurred_at, 1_781_944_200_000_000_000);
}

#[test]
fn create_sheep_reads_the_clock_once_for_the_batch() {
    let before = time::OffsetDateTime::now_utc().unix_timestamp_nanos();
    let outcome = create_sheep(CLOUDEVENTS_BATCH_JSON, Some(JsonValue::Array(vec![valid_sheep(), valid_sheep()])), 10)
        .unwrap()
        .unwrap();
    let after = time::OffsetDateTime::now_utc().unix_timestamp_nanos();
    assert_eq!(outcome[0].received_at, outcome[1].received_at);
    assert!(before <= outcome[0].received_at && outcome[0].received_at <= after);
    assert_eq!(outcome[0].occurred_at, outcome[0].received_at);
}

#[test]
fn times_past_the_utc_years_are_refused_as_the_service_panics() {
    let far = with("time", text("9999-12-31T23:30:00-01:00"));
    assert!(create_sheep_at(CLOUDEVENTS_JSON, Some(far), 1000, NOW).is_none());
    let far = with("time", text("9999-12-31T23:30:00-01:00"));
    assert!(validate_request(CLOUDEVENTS_BATCH_JSON, Some(JsonValue::Array(vec![far])), 1000).is_none());
    let far = with("time", text("9999-12-31T23:30:00-01:00"));
    assert!(
        create_sheep_at(CLOUDEVENTS_BATCH_JSON, Some(JsonValue::Array(vec![far, valid_sheep()])), 1, NOW)
            .unwrap()
            .is_err(),
        "the cap is checked before any time is converted"
    );
}

#[test]
fn stamp_defaults_missing_time_to_now() {
    let sheep = validate(valid_sheep()).unwrap();
    let accepted = stamp(sheep, NOW);
    assert_eq!(accepted.occurred_at, NOW);
    assert_eq!(accepted.received_at, NOW);
    let many = stamp_all(vec![validate(valid_sheep()).unwrap(), validate(valid_sheep()).unwrap()], NOW);
    assert!(many.iter().all(|a: &AcceptedSheep| a.received_at == NOW && a.occurred_at == NOW));
}

/// The JSON text of a library document, entries in order.
fn to_value(v: &JsonValue) -> serde_json::Value {
    match v {
        JsonValue::Null => serde_json::Value::Null,
        JsonValue::Bool(b) => serde_json::Value::Bool(*b),
        JsonValue::Int(i) => serde_json::Value::from(*i),
        JsonValue::UInt(u) => serde_json::Value::from(*u),
        JsonValue::Number(t) => serde_json::Value::Number(t.parse().unwrap()),
        JsonValue::Str(s) => serde_json::Value::String(s.clone()),
        JsonValue::Array(items) => serde_json::Value::Array(items.iter().map(to_value).collect()),
        JsonValue::Object(e) => {
            serde_json::Value::Object(e.iter().map(|(k, v)| (k.clone(), to_value(v))).collect())
        }
    }
}

fn encode(v: &JsonValue) -> Vec<u8> {
    serde_json::to_vec(&to_value(v)).unwrap()
}

fn event(id: &str, time: &str) -> JsonValue {
    JsonValue::Object(vec![
        ("id".to_string(), text(id)),
        ("source".to_string(), text("/svc")),
        ("type".to_string(), text("usage.created")),
        ("specversion".to_string(), text("1.0")),
        ("subject".to_string(), text("customer-1")),
        ("time".to_string(), text(time)),
        ("data".to_string(), JsonValue::Object(vec![("tokens".to_string(), JsonValue::UInt(42))])),
    ])
}

#[test]
fn accepted_event_is_published_with_flattened_payload() {
    let accepted = create_sheep_at(CLOUDEVENTS_JSON, Some(event("evt-1", "2026-06-20T08:30:00Z")), 1000, NOW)
        .unwrap()
        .expect("accepted (202)");
    let mut producer = FakeProducer::new();
    publish_accepted(&mut producer, accepted, encode).expect("published");

    let published = producer.produced();
    assert_eq!(published.len(), 1);
    assert_eq!(published[0].key, "customer-1");
    assert_eq!(published[0].specversion, "1.0");
    assert_eq!(published[0].received_at_unix, 1_782_468_000);

    let payload: serde_json::Value = serde_json::from_slice(&published[0].payload).unwrap();
    assert_eq!(payload["id"], "evt-1");
    assert_eq!(payload["type"], "usage.created");
    assert_eq!(payload["source"], "/svc");
    assert_eq!(payload["subject"], "customer-1");
    assert_eq!(payload["time"], 1_781_944_200_i64);
    assert_eq!(payload["data"]["tokens"], 42);
    assert_eq!(
        String::from_utf8(published[0].payload.clone()).unwrap(),
        r#"{"id":"evt-1","type":"usage.created","source":"/svc","subject":"customer-1","time":1781944200,"data":{"tokens":42}}"#
    );
}

#[test]
fn batch_is_published_one_message_per_event_in_order() {
    let accepted = create_sheep_at(
        CLOUDEVENTS_BATCH_JSON,
        Some(JsonValue::Array(vec![
            event("evt-1", "2026-06-20T08:30:00Z"),
            event("evt-2", "2026-06-20T08:30:01Z"),
        ])),
        1000,
        NOW,
    )
    .unwrap()
    .unwrap();
    let mut producer = FakeProducer::new();
    publish_accepted(&mut producer, accepted, encode).unwrap();
    let ids: Vec<String> = producer
        .produced()
        .iter()
        .map(|m| serde_json::from_slice::<serde_json::Value>(&m.payload).unwrap()["id"].as_str().unwrap().to_string())
        .collect();
    assert_eq!(ids, vec!["evt-1", "evt-2"]);
}

#[test]
fn rejected_batch_publishes_nothing() {
    let good = valid_sheep();
    let bad = without("subject");
    let outcome = create_sheep_at(CLOUDEVENTS_BATCH_JSON, Some(JsonValue::Array(vec![good, bad])), 1000, NOW).unwrap();
    let mut producer = FakeProducer::new();
    match outcome {
        Ok(accepted) => publish_accepted(&mut producer, accepted, encode).unwrap(),
        Err(error) => assert_eq!(error.into_status_and_body().0, 400),
    }
    assert!(producer.produced().is_empty());
}

#[test]
fn queue_full_maps_to_503() {
    let accepted = create_sheep_at(CLOUDEVENTS_JSON, Some(valid_sheep()), 1000, NOW).unwrap().unwrap();
    let mut producer = FakeProducer::failing_queue_full();
    let error = publish_accepted(&mut producer, accepted, encode).unwrap_err();
    assert_eq!(error.retry_after(), Some(1));
    assert_eq!(error.into_status_and_body().0, 503);
    assert!(producer.produced().is_empty());
}

/// A producer whose client refuses every enqueue.
struct BrokenProducer;

impl Producer for BrokenProducer {
    fn produce(&mut self, _message: &ProducedMessage) -> Result<(), ProduceError> {
        Err(ProduceError::Backend("broker unreachable".to_string()))
    }

    fn flush(&mut self, _timeout: std::time::Duration) {}
}

#[test]
fn backend_error_maps_to_500() {
    let accepted = create_sheep_at(CLOUDEVENTS_JSON, Some(valid_sheep()), 1000, NOW).unwrap().unwrap();
    let error = publish_accepted(&mut BrokenProducer, accepted, encode).unwrap_err();
    assert!(matches!(error, AppError::Internal(_)));
    assert_eq!(error.retry_after(), None);
    assert_eq!(error.into_status_and_body().0, 500);
}

#[test]
fn a_failed_enqueue_stops_the_batch() {
    struct FailsSecond(FakeProducer, usize);
    impl Producer for FailsSecond {
        fn produce(&mut self, message: &ProducedMessage) -> Result<(), ProduceError> {
            self.1 += 1;
            if self.1 == 2 {
                return Err(ProduceError::QueueFull);
            }
            self.0.produce(message)
        }

        fn flush(&mut self, _timeout: std::time::Duration) {}
    }
    let accepted = create_sheep_at(
        CLOUDEVENTS_BATCH_JSON,
        Some(JsonValue::Array(vec![valid_sheep(), valid_sheep(), valid_sheep()])),
        1000,
        NOW,
    )
    .unwrap()
    .unwrap();
    let mut producer = FailsSecond(FakeProducer::new(), 0);
    let error = publish_accepted(&mut producer, accepted, encode).unwrap_err();
    assert_eq!(error.into_status_and_body().0, 503);
    assert_eq!(producer.1, 2, "nothing is tried after the failed enqueue");
    assert_eq!(producer.0.produced().len(), 1, "the earlier event stays enqueued");
}

#[test]
fn rejects_empty_body() {
    // An empty body is not JSON: the service hands the library no document.
    assert!(serde_json::from_slice::<serde_json::Value>(b"").is_err());
    assert_eq!(answer(CLOUDEVENTS_JSON, None, 1000).0, 400);
}

#[test]
fn one_event_batch_is_decided_as_the_single_event() {
    let (status, single_errors) = single(entries(&[("specversion", "1.0")]));
    let (batch_status, batch_errors) = batch(vec![entries(&[("specversion", "1.0")])], 1);
    assert_eq!(status, batch_status);
    assert_eq!(single_errors.len(), batch_errors.len());
    for (s, b) in single_errors.iter().zip(batch_errors.iter()) {
        assert_eq!(s.0, None);
        assert_eq!(b.0, Some(0));
        assert_eq!(s.1, b.1);
    }
    assert_eq!(batch(vec![valid_sheep()], 1).0, single(valid_sheep()).0);
}

#[test]
fn refused_requests_are_client_errors() {
    let refusals = [
        answer("text/plain", Some(valid_sheep()), 10),
        answer(CLOUDEVENTS_JSON, None, 10),
        answer(CLOUDEVENTS_JSON, Some(JsonValue::Null), 10),
        answer(CLOUDEVENTS_BATCH_JSON, Some(JsonValue::Array(vec![])), 10),
        answer(CLOUDEVENTS_BATCH_JSON, Some(JsonValue::Array(vec![JsonValue::Bool(true)])), 10),
    ];
    for (status, errors) in refusals {
        assert!(status == 400 || status == 415, "status {status}");
        assert!(!errors.is_empty());
    }
}
