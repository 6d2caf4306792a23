//! The application's error type and its uniform JSON rendering:
//! `{ "errors": [{ "detail": ... }] }`, with an `index` on batch failures.

use vstd::prelude::*;

use crate::error_tracking::{chain_text, error_chain, internal_report, ExceptionReport};
use crate::json::{entry, is_text, text, JsonValue};
use crate::sheep::strings_view;

verus! {

/// A single validation failure. `index` ties it to a position within a batch
/// submission; it is `None` for single-event requests.
#[derive(Debug, PartialEq)]
pub struct ValidationItem {
    pub index: Option<usize>,
    pub detail: String,
}

impl ValidationItem {
    /// A failure tied to event `index` within a batch submission.
    pub fn at(index: usize, detail: String) -> (r: Self)
        ensures
            r.index == Some(index),
            r.detail == detail,
    {
        ValidationItem { index: Some(index), detail }
    }
}

impl From<String> for ValidationItem {
    /// A failure with no batch position (single-event path).
    fn from(detail: String) -> (r: Self) {
        ValidationItem { index: None, detail }
    }
}

impl vstd::std_specs::convert::FromSpecImpl<String> for ValidationItem {
    open spec fn obeys_from_spec() -> bool {
        true
    }

    open spec fn from_spec(detail: String) -> ValidationItem {
        ValidationItem { index: None, detail }
    }
}

/// The application's error type.
#[derive(Debug)]
pub enum AppError {
    BadRequest(String),
    /// One or more validation failures; each becomes its own `detail`.
    Validation(Vec<ValidationItem>),
    /// Wrong or missing request media type.
    UnsupportedMediaType(String),
    NotFound,
    /// A known path reached with an unsupported HTTP method.
    MethodNotAllowed,
    /// Local back-pressure (the producer queue is full): the client should
    /// retry. Not a code fault, so not reported to PostHog.
    ServiceUnavailable(String),
    /// Internal failures. The cause is logged; the client sees a generic 500.
    Internal(anyhow::Error),
}

/// An `AppError` as its contracts see it; the cause of an internal error is opaque.
pub enum AppErrorView {
    BadRequest(Seq<char>),
    Validation(Seq<(Option<usize>, Seq<char>)>),
    UnsupportedMediaType(Seq<char>),
    NotFound,
    MethodNotAllowed,
    ServiceUnavailable(Seq<char>),
    Internal,
}

/// Validation items as `(index, detail)` pairs.
pub open spec fn items_view(items: Seq<ValidationItem>) -> Seq<(Option<usize>, Seq<char>)> {
    items.map_values(|item: ValidationItem| (item.index, item.detail@))
}

impl View for AppError {
    type V = AppErrorView;

    open spec fn view(&self) -> AppErrorView {
        match self {
            AppError::BadRequest(m) => AppErrorView::BadRequest(m@),
            AppError::Validation(items) => AppErrorView::Validation(items_view(items@)),
            AppError::UnsupportedMediaType(m) => AppErrorView::UnsupportedMediaType(m@),
            AppError::NotFound => AppErrorView::NotFound,
            AppError::MethodNotAllowed => AppErrorView::MethodNotAllowed,
            AppError::ServiceUnavailable(m) => AppErrorView::ServiceUnavailable(m@),
            AppError::Internal(_) => AppErrorView::Internal,
        }
    }
}

/// The validation items of plain details, none carrying an index.
pub open spec fn unindexed(details: Seq<Seq<char>>) -> Seq<(Option<usize>, Seq<char>)> {
    details.map_values(|d: Seq<char>| (None::<usize>, d))
}

/// Seconds a client is asked to wait before retrying after back-pressure.
pub const RETRY_AFTER_SECONDS: u32 = 1;

/// The HTTP status an error is answered with.
pub open spec fn status_of(e: AppErrorView) -> u16 {
    match e {
        AppErrorView::BadRequest(_) => 400,
        AppErrorView::Validation(_) => 400,
        AppErrorView::UnsupportedMediaType(_) => 415,
        AppErrorView::NotFound => 404,
        AppErrorView::MethodNotAllowed => 405,
        AppErrorView::ServiceUnavailable(_) => 503,
        AppErrorView::Internal => 500,
    }
}

/// The details an error is answered with, in order. The cause of an internal
/// error never reaches the client.
pub open spec fn details_of(e: AppErrorView) -> Seq<(Option<usize>, Seq<char>)> {
    match e {
        AppErrorView::BadRequest(m) => seq![(None, m)],
        AppErrorView::Validation(items) => items,
        AppErrorView::UnsupportedMediaType(m) => seq![(None, m)],
        AppErrorView::NotFound => seq![(None, "not found"@)],
        AppErrorView::MethodNotAllowed => seq![(None, "method not allowed"@)],
        AppErrorView::ServiceUnavailable(m) => seq![(None, m)],
        AppErrorView::Internal => seq![(None, "internal server error"@)],
    }
}

/// `v` renders one detail: `{ "index": i, "detail": d }` when it has an
/// index, `{ "detail": d }` otherwise.
pub open spec fn is_detail_json(v: JsonValue, d: (Option<usize>, Seq<char>)) -> bool {
    match v {
        JsonValue::Object(entries) => match d.0 {
            Some(i) => {
                &&& entries@.len() == 2
                &&& entries@[0].0@ == "index"@
                &&& entries@[0].1 == JsonValue::UInt(i as u64)
                &&& entries@[1].0@ == "detail"@
                &&& is_text(entries@[1].1, d.1)
            },
            None => {
                &&& entries@.len() == 1
                &&& entries@[0].0@ == "detail"@
                &&& is_text(entries@[0].1, d.1)
            },
        },
        _ => false,
    }
}

/// `v` is the envelope `{ "errors": [...] }` holding exactly `details`, in order.
pub open spec fn is_error_envelope(v: JsonValue, details: Seq<(Option<usize>, Seq<char>)>) -> bool {
    match v {
        JsonValue::Object(entries) => {
            &&& entries@.len() == 1
            &&& entries@[0].0@ == "errors"@
            &&& match entries@[0].1 {
                JsonValue::Array(items) => {
                    &&& items@.len() == details.len()
                    &&& forall|i: int|
                        0 <= i < details.len() ==> is_detail_json(#[trigger] items@[i], details[i])
                },
                _ => false,
            }
        },
        _ => false,
    }
}

/// Renders a single detail string as `{ "detail": ... }`.
fn detail(message: &str) -> (r: JsonValue)
    ensures
        is_detail_json(r, (None, message@)),
{
    let mut entries: Vec<(String, JsonValue)> = Vec::new();
    entries.push(entry("detail", text(message)));
    JsonValue::Object(entries)
}

/// Renders a validation item, including `index` only when it carries one.
fn render_validation_item(item: &ValidationItem) -> (r: JsonValue)
    ensures
        is_detail_json(r, (item.index, item.detail@)),
{
    match item.index {
        Some(index) => {
            let mut entries: Vec<(String, JsonValue)> = Vec::new();
            entries.push(entry("index", JsonValue::UInt(index as u64)));
            entries.push(entry("detail", text(item.detail.as_str())));
            JsonValue::Object(entries)
        },
        None => detail(item.detail.as_str()),
    }
}

/// The envelope `{ "errors": [...] }` around rendered details.
fn envelope(items: Vec<JsonValue>, ghost_details: Ghost<Seq<(Option<usize>, Seq<char>)>>) -> (r: JsonValue)
    requires
        items@.len() == ghost_details@.len(),
        forall|i: int| 0 <= i < items@.len() ==> is_detail_json(#[trigger] items@[i], ghost_details@[i]),
    ensures
        is_error_envelope(r, ghost_details@),
{
    let mut entries: Vec<(String, JsonValue)> = Vec::new();
    entries.push(entry("errors", JsonValue::Array(items)));
    JsonValue::Object(entries)
}

impl AppError {
    /// Builds a `Validation` error from plain detail strings with no batch
    /// position: the single-event ingestion path.
    pub fn validation(details: Vec<String>) -> (r: AppError)
        ensures
            r@ == AppErrorView::Validation(unindexed(strings_view(details@))),
    {
        let mut items: Vec<ValidationItem> = Vec::new();
        let mut i: usize = 0;
        while i < details.len()
            invariant
                i <= details@.len(),
                items_view(items@) == unindexed(strings_view(details@.take(i as int))),
            decreases details@.len() - i,
        {
            let ghost before = items@;
            let d = details[i].clone();
            items.push(ValidationItem { index: None, detail: d });
            proof {
                assert(items_view(items@) =~= items_view(before).push((None::<usize>, details@[i as int]@)));
                let sv = strings_view(details@.take(i as int));
                assert(unindexed(sv.push(details@[i as int]@)) =~= unindexed(sv).push((None::<usize>, details@[i as int]@)));
                assert(details@.take(i + 1) =~= details@.take(i as int).push(details@[i as int]));
                assert(strings_view(details@.take(i + 1)) =~= strings_view(details@.take(i as int)).push(details@[i as int]@));
                assert(items_view(items@) =~= unindexed(strings_view(details@.take(i + 1))));
            }
            i = i + 1;
        }
        assert(details@.take(details@.len() as int) =~= details@);
        AppError::Validation(items)
    }

    /// The `Retry-After` delay, in seconds, this error is answered with: only
    /// back-pressure (`503`) asks the client to retry.
    pub fn retry_after(&self) -> (r: Option<u32>)
        ensures
            r is Some <==> self@ is ServiceUnavailable,
            r matches Some(seconds) ==> seconds == RETRY_AFTER_SECONDS,
    {
        match self {
            AppError::ServiceUnavailable(_) => Some(RETRY_AFTER_SECONDS),
            _ => None,
        }
    }

    /// The HTTP status and JSON body this error is answered with.
    pub fn into_status_and_body(self) -> (r: (u16, JsonValue))
        ensures
            r.0 == status_of(self@),
            is_error_envelope(r.1, details_of(self@)),
    {
        let ghost view = self@;
        let mut items: Vec<JsonValue> = Vec::new();
        let status: u16 = match self {
            AppError::BadRequest(message) => {
                items.push(detail(message.as_str()));
                400
            },
            AppError::Validation(validation_items) => {
                let mut i: usize = 0;
                while i < validation_items.len()
                    invariant
                        i <= validation_items@.len(),
                        view == AppErrorView::Validation(items_view(validation_items@)),
                        items@.len() == i,
                        forall|j: int|
                            0 <= j < i ==> is_detail_json(
                                #[trigger] items@[j],
                                items_view(validation_items@)[j],
                            ),
                    decreases validation_items@.len() - i,
                {
                    items.push(render_validation_item(&validation_items[i]));
                    i = i + 1;
                }
                400
            },
            AppError::UnsupportedMediaType(message) => {
                items.push(detail(message.as_str()));
                415
            },
            AppError::ServiceUnavailable(message) => {
                items.push(detail(message.as_str()));
                503
            },
            AppError::NotFound => {
                items.push(detail("not found"));
                404
            },
            AppError::MethodNotAllowed => {
                items.push(detail("method not allowed"));
                405
            },
            AppError::Internal(_) => {
                items.push(detail("internal server error"));
                500
            },
        };
        (status, envelope(items, Ghost(details_of(view))))
    }
}

/// The PostHog exception report for an error, or `None` when it must not be
/// tracked. Only `Internal` (a 5xx server fault) is reported; 4xx errors and
/// back-pressure are expected and would only bury real issues.
pub fn exception_report(error: &AppError) -> (r: Option<ExceptionReport>)
    ensures
        r is Some <==> error@ is Internal,
        r matches Some(report) ==> report@.kind == "AppError::Internal"@ && report@.handled,
        error matches AppError::Internal(cause) ==> r matches Some(report) && report@.value == chain_text(
            error_chain(*cause),
        ),
{
    match error {
        AppError::Internal(cause) => Some(internal_report(cause)),
        _ => None,
    }
}

} // verus!
