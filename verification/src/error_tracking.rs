//! Server-side error tracking: what is reported for panics and 5xx errors,
//! and the `$exception` event that carries a report to PostHog.
//!
//! Delivery (the process-global sink, the PostHog client) lives with the
//! service; this module decides what a report says.

use vstd::prelude::*;

use crate::config::posthog::{
    lemma_active_iff_no_disabled_reason, reason_message, spec_disabled_reason, spec_is_active,
    ActivePostHog, PostHogConfig,
};
use crate::json::{entry, is_boolean, is_text, text, JsonValue};

verus! {

/// `anyhow::Error`, carried through as an opaque value.
#[verifier::external_type_specification]
#[verifier::external_body]
pub struct ExAnyhowError(anyhow::Error);

/// Distinct id for backend exception events. The service has no per-user
/// identity, so every exception is attributed to one stable id.
pub const SERVICE_DISTINCT_ID: &'static str = "countingsheep-backend";

/// A normalized exception ready to report.
#[derive(Debug, PartialEq, Eq)]
pub struct ExceptionReport {
    /// Becomes `$exception_list[].type`, e.g. `"AppError::Internal"` or `"panic"`.
    pub kind: String,
    /// Becomes `$exception_list[].value`, the human-readable message.
    pub value: String,
    /// `mechanism.handled`: `false` for panics, `true` for caught 5xx.
    pub handled: bool,
}

/// An `ExceptionReport` with its text taken as character sequences.
pub struct ExceptionReportView {
    pub kind: Seq<char>,
    pub value: Seq<char>,
    pub handled: bool,
}

impl View for ExceptionReport {
    type V = ExceptionReportView;

    open spec fn view(&self) -> ExceptionReportView {
        ExceptionReportView { kind: self.kind@, value: self.value@, handled: self.handled }
    }
}

/// Where reported exceptions go. Implementations must not block the caller.
pub trait ExceptionSink {
    /// Deliver one exception.
    fn report(&self, report: ExceptionReport);
}

/// Drops every report: the sink when error tracking is off.
pub struct NoopSink;

impl ExceptionSink for NoopSink {
    fn report(&self, _report: ExceptionReport) {
    }
}

/// How `{:#}` renders an `anyhow` error from the messages of its cause chain,
/// outermost first: the messages joined by `": "`.
pub open spec fn chain_text(messages: Seq<Seq<char>>) -> Seq<char>
    decreases messages.len(),
{
    if messages.len() == 0 {
        Seq::empty()
    } else if messages.len() == 1 {
        messages[0]
    } else {
        chain_text(messages.drop_last()) + ": "@ + messages.last()
    }
}

/// The messages of an `anyhow` error's cause chain, outermost first: each
/// cause of `Error::chain` rendered with `Display`.
pub uninterp spec fn error_chain(error: anyhow::Error) -> Seq<Seq<char>>;

/// Calls `anyhow::Error::chain` and renders each cause with `to_string`.
/// Claimed: the messages are the named `error_chain` of the error, and there
/// is at least one (the chain starts with the error itself).
#[verifier::external_body]
fn cause_messages(error: &anyhow::Error) -> (r: Vec<String>)
    ensures
        r@.len() >= 1,
        r@.map_values(|m: String| m@) == error_chain(*error),
{
    let mut messages = Vec::new();
    for cause in error.chain() {
        messages.push(cause.to_string());
    }
    messages
}

/// The report for a 5xx server fault whose cause chain has the given
/// messages, outermost first.
pub fn report_for_causes(messages: &Vec<String>) -> (r: ExceptionReport)
    ensures
        r@.kind == "AppError::Internal"@,
        r@.value == chain_text(messages@.map_values(|m: String| m@)),
        r@.handled,
{
    let ghost texts = messages@.map_values(|m: String| m@);
    let mut value = String::new();
    let mut i: usize = 0;
    while i < messages.len()
        invariant
            i <= messages@.len(),
            texts == messages@.map_values(|m: String| m@),
            value@ == chain_text(texts.take(i as int)),
        decreases messages@.len() - i,
    {
        if i > 0 {
            value.append(": ");
        }
        value.append(messages[i].as_str());
        proof {
            let next = texts.take(i + 1);
            assert(next.drop_last() =~= texts.take(i as int));
            if i == 0 {
                assert(texts.take(0) =~= Seq::<Seq<char>>::empty());
                assert(value@ =~= next[0]);
            }
        }
        i = i + 1;
    }
    assert(texts.take(messages@.len() as int) =~= texts);
    ExceptionReport { kind: "AppError::Internal".to_owned(), value, handled: true }
}

/// The exception report for a 5xx server fault, carrying the full cause chain
/// (outermost first) as the value.
pub fn internal_report(error: &anyhow::Error) -> (r: ExceptionReport)
    ensures
        r@.kind == "AppError::Internal"@,
        r@.handled,
        r@.value == chain_text(error_chain(*error)),
{
    let messages = cause_messages(error);
    report_for_causes(&messages)
}

/// The exception report for a caught panic (unhandled).
pub fn panic_report(message: String) -> (r: ExceptionReport)
    ensures
        r@.kind == "panic"@,
        r.value == message,
        !r.handled,
{
    ExceptionReport { kind: "panic".to_owned(), value: message, handled: false }
}

/// The message of a panic payload: its text when the payload is a `&str` or
/// a `String`, otherwise a fixed fallback.
pub fn panic_message(payload_text: Option<String>) -> (r: String)
    ensures
        r@ == match payload_text {
            Some(t) => t@,
            None => "unknown panic payload"@,
        },
{
    match payload_text {
        Some(t) => t,
        None => "unknown panic payload".to_owned(),
    }
}

/// How error tracking starts.
pub enum TrackingStart<'a> {
    /// Connect to PostHog with these settings.
    Connect(ActivePostHog<'a>),
    /// Stay off. The reason is logged, as a warning when it is a
    /// misconfiguration.
    Off { reason: String, warn: bool },
}

/// How error tracking starts for a configuration: connect when capture is
/// active, otherwise stay off and say why.
pub fn tracking_start(config: &PostHogConfig) -> (r: TrackingStart<'_>)
    ensures
        r is Connect <==> spec_is_active(config@),
        r matches TrackingStart::Connect(a) ==> Some(a.api_key@) == config@.api_key && match a.host {
            Some(h) => config@.host == Some(h@),
            None => config@.host is None,
        },
        r matches TrackingStart::Off { reason, warn } ==> spec_disabled_reason(config@) matches Some(why)
            && reason@ == reason_message(why) && warn == why is InvalidEnabledValue,
{
    proof {
        lemma_active_iff_no_disabled_reason(config@);
    }
    match config.active() {
        Some(active) => TrackingStart::Connect(active),
        None => match config.disabled_reason() {
            Some(why) => TrackingStart::Off { reason: why.message(), warn: why.is_misconfiguration() },
            None => TrackingStart::Off { reason: String::new(), warn: false },
        },
    }
}

/// The `$exception` event that carries a report to PostHog.
#[derive(Debug, PartialEq)]
pub struct ExceptionEvent {
    /// The event name, always `"$exception"`.
    pub event: String,
    /// The distinct id the event is attributed to.
    pub distinct_id: String,
    /// The event properties, each key once.
    pub properties: Vec<(String, JsonValue)>,
}

/// `v` is the object with exactly these entries, in this order.
pub open spec fn is_object_of(v: JsonValue, keys: Seq<Seq<char>>) -> bool {
    match v {
        JsonValue::Object(entries) => entries@.len() == keys.len() && forall|i: int|
            0 <= i < keys.len() ==> (#[trigger] entries@[i]).0@ == keys[i],
        _ => false,
    }
}

/// The `i`-th entry's value of an object.
pub open spec fn member(v: JsonValue, i: int) -> JsonValue {
    match v {
        JsonValue::Object(entries) => entries@[i].1,
        _ => JsonValue::Null,
    }
}

/// `m` is the mechanism of a captured exception: generic, not synthetic, and
/// handled as the report says.
pub open spec fn is_mechanism(m: JsonValue, handled: bool) -> bool {
    &&& is_object_of(m, seq!["type"@, "handled"@, "synthetic"@])
    &&& is_text(member(m, 0), "generic"@)
    &&& is_boolean(member(m, 1), handled)
    &&& is_boolean(member(m, 2), false)
}

/// `item` is the `$exception_list` entry for `report`, in the shape of
/// PostHog's exception schema.
pub open spec fn is_exception_item(item: JsonValue, report: ExceptionReportView) -> bool {
    &&& is_object_of(item, seq!["type"@, "value"@, "mechanism"@])
    &&& is_text(member(item, 0), report.kind)
    &&& is_text(member(item, 1), report.value)
    &&& is_mechanism(member(item, 2), report.handled)
}

/// `list` is a one-element array holding the item for `report`.
pub open spec fn is_exception_list(list: JsonValue, report: ExceptionReportView) -> bool {
    match list {
        JsonValue::Array(items) => items@.len() == 1 && is_exception_item(items@[0], report),
        _ => false,
    }
}

/// `e` is the `$exception` event for `report`: attributed to the service,
/// with the exception list and an `"error"` level as its properties.
pub open spec fn is_exception_event(e: ExceptionEvent, report: ExceptionReportView) -> bool {
    &&& e.event@ == "$exception"@
    &&& e.distinct_id@ == SERVICE_DISTINCT_ID@
    &&& e.properties@.len() == 2
    &&& e.properties@[0].0@ == "$exception_list"@
    &&& is_exception_list(e.properties@[0].1, report)
    &&& e.properties@[1].0@ == "$exception_level"@
    &&& is_text(e.properties@[1].1, "error"@)
}

/// Builds the `$exception` event for a report, mirroring PostHog's own
/// exception item and mechanism layout so that PostHog groups it into issues.
pub fn exception_event(report: &ExceptionReport) -> (e: ExceptionEvent)
    ensures
        is_exception_event(e, report@),
{
    let mechanism = JsonValue::Object(
        vec![
            entry("type", text("generic")),
            entry("handled", JsonValue::Bool(report.handled)),
            entry("synthetic", JsonValue::Bool(false)),
        ],
    );
    assert(is_mechanism(mechanism, report.handled));
    let item = JsonValue::Object(
        vec![
            entry("type", text(report.kind.as_str())),
            entry("value", text(report.value.as_str())),
            entry("mechanism", mechanism),
        ],
    );
    assert(is_exception_item(item, report@));
    let list = JsonValue::Array(vec![item]);
    let properties = vec![entry("$exception_list", list), entry("$exception_level", text("error"))];
    ExceptionEvent {
        event: "$exception".to_owned(),
        distinct_id: SERVICE_DISTINCT_ID.to_owned(),
        properties,
    }
}

} // verus!
