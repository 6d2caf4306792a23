use countingsheep::error::{exception_report, AppError, ValidationItem};
use countingsheep::json::JsonValue;

fn detail(message: &str) -> JsonValue {
    JsonValue::Object(vec![("detail".to_string(), JsonValue::Str(message.to_string()))])
}

fn envelope(items: Vec<JsonValue>) -> JsonValue {
    JsonValue::Object(vec![("errors".to_string(), JsonValue::Array(items))])
}

#[test]
fn only_internal_errors_are_reported_to_posthog() {
    assert!(exception_report(&AppError::Internal(anyhow::Error::msg("boom"))).is_some());
    assert!(exception_report(&AppError::BadRequest("x".into())).is_none());
    assert!(exception_report(&AppError::Validation(vec![])).is_none());
    assert!(exception_report(&AppError::UnsupportedMediaType("x".into())).is_none());
    assert!(exception_report(&AppError::ServiceUnavailable("x".into())).is_none());
    assert!(exception_report(&AppError::NotFound).is_none());
    assert!(exception_report(&AppError::MethodNotAllowed).is_none());
}

#[test]
fn internal_error_report_is_a_handled_500_with_the_cause() {
    let report = exception_report(&AppError::Internal(anyhow::Error::msg("db down")))
        .expect("internal errors are reported");
    assert_eq!(report.kind, "AppError::Internal");
    assert!(report.handled);
    assert!(report.value.contains("db down"));
}

#[test]
fn not_found_renders_404_json() {
    let (status, body) = AppError::NotFound.into_status_and_body();
    assert_eq!(status, 404);
    assert_eq!(body, envelope(vec![detail("not found")]));
}

#[test]
fn method_not_allowed_renders_405_json() {
    let (status, body) = AppError::MethodNotAllowed.into_status_and_body();
    assert_eq!(status, 405);
    assert_eq!(body, envelope(vec![detail("method not allowed")]));
}

#[test]
fn bad_request_uses_provided_detail() {
    let (status, body) = AppError::BadRequest("nope".into()).into_status_and_body();
    assert_eq!(status, 400);
    assert_eq!(body, envelope(vec![detail("nope")]));
}

#[test]
fn internal_hides_cause_and_returns_500() {
    let error = AppError::Internal(anyhow::Error::msg("db dsn: secret://do-not-leak"));
    let (status, body) = error.into_status_and_body();
    assert_eq!(status, 500);
    assert_eq!(body, envelope(vec![detail("internal server error")]));
    assert!(!format!("{body:?}").contains("secret"));
}

#[test]
fn validation_renders_400_with_all_details() {
    let (status, body) =
        AppError::validation(vec!["id is required".into(), "type is required".into()]).into_status_and_body();
    assert_eq!(status, 400);
    assert_eq!(body, envelope(vec![detail("id is required"), detail("type is required")]));
}

#[test]
fn validation_without_index_omits_index_field() {
    let (_, body) = AppError::validation(vec!["id is required".into()]).into_status_and_body();
    assert_eq!(body, envelope(vec![detail("id is required")]));
}

#[test]
fn validation_with_index_renders_index_and_detail() {
    let (status, body) =
        AppError::Validation(vec![ValidationItem::at(2, "id is required".into())]).into_status_and_body();
    assert_eq!(status, 400);
    assert_eq!(
        body,
        envelope(vec![JsonValue::Object(vec![
            ("index".to_string(), JsonValue::UInt(2)),
            ("detail".to_string(), JsonValue::Str("id is required".to_string())),
        ])])
    );
}

#[test]
fn unsupported_media_type_renders_415() {
    let (status, body) = AppError::UnsupportedMediaType("nope".into()).into_status_and_body();
    assert_eq!(status, 415);
    assert_eq!(body, envelope(vec![detail("nope")]));
}

#[test]
fn service_unavailable_renders_503_json() {
    let (status, body) = AppError::ServiceUnavailable("kafka queue full".into()).into_status_and_body();
    assert_eq!(status, 503);
    assert_eq!(body, envelope(vec![detail("kafka queue full")]));
}

#[test]
fn validation_item_from_a_string_has_no_index() {
    let item = ValidationItem::from("id is required".to_string());
    assert_eq!(item.index, None);
    assert_eq!(item.detail, "id is required");
    let at = ValidationItem::at(7, "x".to_string());
    assert_eq!(at.index, Some(7));
}

#[test]
fn empty_validation_renders_an_empty_list() {
    let (status, body) = AppError::Validation(vec![]).into_status_and_body();
    assert_eq!(status, 400);
    assert_eq!(body, envelope(vec![]));
}

#[test]
fn only_back_pressure_asks_for_a_retry() {
    assert_eq!(AppError::ServiceUnavailable("kafka queue full".into()).retry_after(), Some(1));
    assert_eq!(AppError::NotFound.retry_after(), None);
    assert_eq!(AppError::Internal(anyhow::Error::msg("x")).retry_after(), None);
    assert_eq!(AppError::BadRequest("x".into()).retry_after(), None);
}

#[test]
fn internal_report_value_is_the_whole_cause_chain() {
    let error = AppError::Internal(anyhow::Error::msg("db down").context("loading sheep"));
    assert_eq!(exception_report(&error).unwrap().value, "loading sheep: db down");
}
