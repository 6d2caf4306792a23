//! The decisions of `POST /api/v1/sheeps`: which media type was sent, whether
//! the body holds one event or a batch, and which events are accepted.
//!
//! The service reads the request, parses the body as JSON and reads the
//! clock; everything it then answers is decided here.

use vstd::prelude::*;

use crate::error::{details_of, status_of, unindexed, AppError, AppErrorView, ValidationItem, items_view};
use crate::instant::{now_utc, utc_representable};
use crate::json::JsonValue;
use crate::sheep::{spec_validate, strings_view, time_converts_to_utc, time_in_utc_range, validate_checked, Sheep, SheepView};
use crate::stamp::{stamp, AcceptedSheep};
use crate::text::{
    before_first, chars_of, copy_range, decimal, eq_ignore_ascii_case, equal_ignoring_ascii_case,
    find_char, push_decimal, trim, trim_bounds,
};

verus! {

/// The media type of a single CloudEvent.
pub const CLOUDEVENTS_JSON: &'static str = "application/cloudevents+json";

/// The media type of a batch of CloudEvents.
pub const CLOUDEVENTS_BATCH_JSON: &'static str = "application/cloudevents-batch+json";

/// An `AcceptedSheep` as its contracts see it.
pub struct AcceptedSheepView {
    pub sheep: SheepView,
    pub occurred_at: i128,
    pub received_at: i128,
}

impl View for AcceptedSheep {
    type V = AcceptedSheepView;

    open spec fn view(&self) -> AcceptedSheepView {
        AcceptedSheepView {
            sheep: self.sheep@,
            occurred_at: self.occurred_at,
            received_at: self.received_at,
        }
    }
}

/// What a request is answered with: the events to record, or the error.
pub type Outcome = Result<Vec<AcceptedSheep>, AppError>;

pub type OutcomeView = Result<Seq<AcceptedSheepView>, AppErrorView>;

/// The views of accepted events.
pub open spec fn accepted_view(v: Seq<AcceptedSheep>) -> Seq<AcceptedSheepView> {
    v.map_values(|a: AcceptedSheep| a@)
}

/// The view of an outcome.
pub open spec fn outcome_view(o: Outcome) -> OutcomeView {
    match o {
        Ok(v) => Ok(accepted_view(v@)),
        Err(e) => Err(e@),
    }
}

/// A validated event stamped at `now`.
pub open spec fn stamped(s: SheepView, now: i128) -> AcceptedSheepView {
    AcceptedSheepView {
        sheep: s,
        occurred_at: match s.time {
            Some(t) => t,
            None => now,
        },
        received_at: now,
    }
}

/// The failures of one event, empty when it is valid.
pub open spec fn event_errors(event: JsonValue) -> Seq<Seq<char>> {
    match spec_validate(event) {
        Ok(_) => Seq::empty(),
        Err(errors) => errors,
    }
}

/// Failures tagged with the position of their event.
pub open spec fn indexed(index: int, errors: Seq<Seq<char>>) -> Seq<(Option<usize>, Seq<char>)> {
    errors.map_values(|d: Seq<char>| (Some(index as usize), d))
}

/// Every failure of every event of a batch, in event order, each carrying its
/// event's index.
pub open spec fn batch_errors(events: Seq<JsonValue>) -> Seq<(Option<usize>, Seq<char>)>
    decreases events.len(),
{
    if events.len() == 0 {
        Seq::empty()
    } else {
        batch_errors(events.drop_last()) + indexed(events.len() - 1, event_errors(events.last()))
    }
}

/// Every event of a valid batch, validated.
pub open spec fn batch_sheep(events: Seq<JsonValue>) -> Seq<SheepView> {
    events.map_values(|e: JsonValue| spec_validate(e)->Ok_0)
}

/// What validation makes of the events of a request: the events to accept,
/// or the error.
pub type ValidatedView = Result<Seq<SheepView>, AppErrorView>;

/// The validation of a single event.
pub open spec fn spec_validate_single(body: Option<JsonValue>) -> ValidatedView {
    match body {
        None => Err(AppErrorView::BadRequest("body must be valid JSON"@)),
        Some(value) => match spec_validate(value) {
            Ok(sheep) => Ok(seq![sheep]),
            Err(errors) => Err(AppErrorView::Validation(unindexed(errors))),
        },
    }
}

/// The message for a batch over the cap.
pub open spec fn over_cap_message(len: nat, max: nat) -> Seq<char> {
    "batch has "@ + decimal(len) + " events, but the maximum is "@ + decimal(max)
}

/// The validation of a batch: all-or-nothing. The body must be an array of
/// at least one and at most `max_batch_events` events, the cap being checked
/// before any event is validated; the batch is accepted only when every
/// event is valid.
pub open spec fn spec_validate_batch(body: Option<JsonValue>, max_batch_events: usize) -> ValidatedView {
    match body {
        None => Err(AppErrorView::BadRequest("body must be valid JSON"@)),
        Some(JsonValue::Array(events)) => if events@.len() == 0 {
            Err(AppErrorView::BadRequest("batch must contain at least one event"@))
        } else if events@.len() > max_batch_events {
            Err(AppErrorView::BadRequest(over_cap_message(events@.len(), max_batch_events as nat)))
        } else if batch_errors(events@).len() > 0 {
            Err(AppErrorView::Validation(batch_errors(events@)))
        } else {
            Ok(batch_sheep(events@))
        },
        Some(_) => Err(AppErrorView::BadRequest("batch body must be a JSON array"@)),
    }
}

/// Accepted events stamped at `now`; errors pass through.
pub open spec fn stamp_validated(v: ValidatedView, now: i128) -> OutcomeView {
    match v {
        Ok(sheep) => Ok(sheep.map_values(|s: SheepView| stamped(s, now))),
        Err(e) => Err(e),
    }
}

/// Validating the body of a single event would panic.
pub open spec fn single_panics(body: Option<JsonValue>) -> bool {
    match body {
        Some(value) => !time_converts_to_utc(value),
        None => false,
    }
}

/// Validating the events of a batch would panic: the batch passed its shape
/// and cap checks and one of its events carries a time that cannot be moved
/// to UTC.
pub open spec fn batch_panics(body: Option<JsonValue>, max_batch_events: usize) -> bool {
    match body {
        Some(JsonValue::Array(events)) => {
            &&& 0 < events@.len() <= max_batch_events
            &&& exists|i: int| 0 <= i < events@.len() && !time_converts_to_utc(#[trigger] events@[i])
        },
        _ => false,
    }
}

/// The media type named by a `Content-Type` value, parameters dropped.
pub open spec fn media_type_of(content_type: Seq<char>) -> Seq<char> {
    trim(before_first(content_type, ';'))
}

/// The `Content-Type` names a single CloudEvent.
pub open spec fn is_single(content_type: Seq<char>) -> bool {
    eq_ignore_ascii_case(media_type_of(content_type), CLOUDEVENTS_JSON@)
}

/// The `Content-Type` names a batch of CloudEvents.
pub open spec fn is_batch(content_type: Seq<char>) -> bool {
    !is_single(content_type) && eq_ignore_ascii_case(media_type_of(content_type), CLOUDEVENTS_BATCH_JSON@)
}

/// The validation of a request to `POST /api/v1/sheeps`, dispatched on the
/// media type, compared without regard to ASCII case.
pub open spec fn spec_validate_request(content_type: Seq<char>, body: Option<JsonValue>, max_batch_events: usize) -> ValidatedView {
    if is_single(content_type) {
        spec_validate_single(body)
    } else if is_batch(content_type) {
        spec_validate_batch(body, max_batch_events)
    } else {
        Err(AppErrorView::UnsupportedMediaType(
            "Content-Type must be application/cloudevents+json or application/cloudevents-batch+json"@,
        ))
    }
}

/// The answer to `POST /api/v1/sheeps` when the clock reads `now`.
pub open spec fn spec_create_sheep(content_type: Seq<char>, body: Option<JsonValue>, max_batch_events: usize, now: i128) -> OutcomeView {
    stamp_validated(spec_validate_request(content_type, body, max_batch_events), now)
}

/// Handling the request would panic.
pub open spec fn create_panics(content_type: Seq<char>, body: Option<JsonValue>, max_batch_events: usize) -> bool {
    if is_single(content_type) {
        single_panics(body)
    } else if is_batch(content_type) {
        batch_panics(body, max_batch_events)
    } else {
        false
    }
}

/// The views of validated events.
pub open spec fn sheep_views(v: Seq<Sheep>) -> Seq<SheepView> {
    v.map_values(|s: Sheep| s@)
}

/// Every validated event has an event time, if any, in the UTC range.
pub open spec fn times_in_range(r: Result<Vec<Sheep>, AppError>) -> bool {
    match r {
        Ok(v) => forall|i: int| 0 <= i < v@.len() ==> time_in_utc_range(#[trigger] v@[i].time),
        Err(_) => true,
    }
}

/// Both instants of an accepted event lie in the UTC range.
pub open spec fn accepted_in_range(a: AcceptedSheep) -> bool {
    utc_representable(a.occurred_at as int) && utc_representable(a.received_at as int)
}

/// The view of a validation result.
pub open spec fn validated_view(r: Result<Vec<Sheep>, AppError>) -> ValidatedView {
    match r {
        Ok(v) => Ok(sheep_views(v@)),
        Err(e) => Err(e@),
    }
}

proof fn lemma_event_errors_empty_iff_valid(event: JsonValue)
    ensures
        event_errors(event).len() == 0 <==> spec_validate(event) is Ok,
{
}

proof fn lemma_batch_errors_empty_iff_all_valid(events: Seq<JsonValue>)
    ensures
        batch_errors(events).len() == 0 <==> forall|i: int|
            0 <= i < events.len() ==> spec_validate(#[trigger] events[i]) is Ok,
    decreases events.len(),
{
    if events.len() > 0 {
        let prefix = events.drop_last();
        lemma_batch_errors_empty_iff_all_valid(prefix);
        lemma_event_errors_empty_iff_valid(events.last());
        assert(forall|i: int| 0 <= i < prefix.len() ==> prefix[i] == events[i]);
        if batch_errors(events).len() == 0 {
            assert forall|i: int| 0 <= i < events.len() implies spec_validate(#[trigger] events[i]) is Ok by {
                if i < prefix.len() {
                    assert(spec_validate(prefix[i]) is Ok);
                }
            }
        }
        if forall|i: int| 0 <= i < events.len() ==> spec_validate(#[trigger] events[i]) is Ok {
            assert(spec_validate(events[events.len() - 1]) is Ok);
            assert forall|i: int| 0 <= i < prefix.len() implies spec_validate(#[trigger] prefix[i]) is Ok by {
                assert(spec_validate(events[i]) is Ok);
            }
        }
    }
}

/// All-or-nothing: a batch within the cap is accepted exactly when every one
/// of its events is valid, and then each event is accepted as validated, in
/// order.
pub proof fn lemma_batch_all_or_nothing(events: Vec<JsonValue>, max_batch_events: usize)
    requires
        0 < events@.len() <= max_batch_events,
    ensures
        spec_validate_batch(Some(JsonValue::Array(events)), max_batch_events) is Ok <==> forall|i: int|
            0 <= i < events@.len() ==> spec_validate(#[trigger] events@[i]) is Ok,
        spec_validate_batch(Some(JsonValue::Array(events)), max_batch_events) matches Ok(sheep) ==> {
            &&& sheep.len() == events@.len()
            &&& forall|i: int| 0 <= i < sheep.len() ==> #[trigger] sheep[i] == spec_validate(events@[i])->Ok_0
        },
{
    lemma_batch_errors_empty_iff_all_valid(events@);
}

/// Every failure reported for a batch names, by its index, an event that
/// failed validation, and is one of that event's own failures.
pub proof fn lemma_batch_errors_name_failing_events(events: Seq<JsonValue>, k: int)
    requires
        0 <= k < batch_errors(events).len(),
    ensures
        exists|i: int, j: int|
            0 <= i < events.len() && spec_validate(events[i]) is Err && 0 <= j < event_errors(events[i]).len()
                && #[trigger] batch_errors(events)[k] == (Some(i as usize), #[trigger] event_errors(events[i])[j]),
    decreases events.len(),
{
    let n = events.len();
    let prefix = events.drop_last();
    let earlier = batch_errors(prefix);
    let last = event_errors(events.last());
    assert(batch_errors(events) == earlier + indexed(n - 1, last));
    if k < earlier.len() {
        lemma_batch_errors_name_failing_events(prefix, k);
        let (i, j) = choose|i: int, j: int|
            0 <= i < prefix.len() && spec_validate(prefix[i]) is Err && 0 <= j < event_errors(prefix[i]).len()
                && #[trigger] batch_errors(prefix)[k] == (Some(i as usize), #[trigger] event_errors(prefix[i])[j]);
        assert(prefix[i] == events[i]);
        assert(batch_errors(events)[k] == earlier[k]);
        assert(batch_errors(events)[k] == (Some(i as usize), event_errors(events[i])[j]));
    } else {
        let j = k - earlier.len();
        assert(events[n - 1] == events.last());
        lemma_event_errors_empty_iff_valid(events.last());
        assert(batch_errors(events)[k] == indexed(n - 1, last)[j]);
        assert(batch_errors(events)[k] == (Some((n - 1) as usize), event_errors(events[n - 1])[j]));
    }
}

/// The cap is checked before any event is validated: a batch over the cap is
/// refused with the cap message whatever its events hold.
pub proof fn lemma_cap_checked_before_validation(events: Vec<JsonValue>, max_batch_events: usize)
    requires
        events@.len() > max_batch_events,
    ensures
        spec_validate_batch(Some(JsonValue::Array(events)), max_batch_events) == Err::<Seq<SheepView>, AppErrorView>(
            AppErrorView::BadRequest(over_cap_message(events@.len(), max_batch_events as nat)),
        ),
{
}

/// The failures of a single event carry no batch index.
pub proof fn lemma_single_errors_unindexed(body: Option<JsonValue>)
    ensures
        spec_validate_single(body) matches Err(AppErrorView::Validation(items)) ==> forall|k: int|
            0 <= k < items.len() ==> (#[trigger] items[k]).0 is None,
{
}

/// A batch of one event is decided as that event alone: it is accepted as
/// the single event would be, and otherwise refused with the same failures,
/// each tagged with index `0`.
pub proof fn lemma_one_event_batch_matches_single(events: Vec<JsonValue>, max_batch_events: usize)
    requires
        events@.len() == 1,
        max_batch_events >= 1,
    ensures
        spec_validate_single(Some(events@[0])) matches Ok(sheep) ==> spec_validate_batch(
            Some(JsonValue::Array(events)),
            max_batch_events,
        ) == Ok::<Seq<SheepView>, AppErrorView>(sheep),
        spec_validate_single(Some(events@[0])) matches Err(AppErrorView::Validation(items)) ==> spec_validate_batch(
            Some(JsonValue::Array(events)),
            max_batch_events,
        ) == Err::<Seq<SheepView>, AppErrorView>(
            AppErrorView::Validation(items.map_values(|item: (Option<usize>, Seq<char>)| (Some(0usize), item.1))),
        ),
{
    let all = events@;
    let event = all[0];
    assert(all.drop_last() =~= Seq::<JsonValue>::empty());
    assert(all.last() == event);
    assert(batch_errors(Seq::<JsonValue>::empty()) =~= Seq::<(Option<usize>, Seq<char>)>::empty());
    let errors = event_errors(event);
    assert(batch_errors(all) =~= indexed(0, errors));
    lemma_event_errors_empty_iff_valid(event);
    match spec_validate(event) {
        Ok(sheep) => {
            assert(batch_sheep(all) =~= seq![sheep]);
        },
        Err(_) => {
            assert(unindexed(errors).map_values(|item: (Option<usize>, Seq<char>)| (Some(0usize), item.1))
                =~= indexed(0, errors));
        },
    }
}

/// A refused request is a client error: it is answered with `400` or `415`
/// and at least one detail, and is never an internal fault (so it is never
/// reported as an exception).
pub proof fn lemma_refusals_are_client_errors(content_type: Seq<char>, body: Option<JsonValue>, max_batch_events: usize)
    ensures
        spec_validate_request(content_type, body, max_batch_events) matches Err(e) ==> {
            &&& status_of(e) == 400 || status_of(e) == 415
            &&& !(e is Internal)
            &&& details_of(e).len() >= 1
        },
{
    if is_single(content_type) {
        if let Some(value) = body {
            lemma_event_errors_empty_iff_valid(value);
        }
    }
}

/// One reading of the clock per request: every event accepted from a request
/// carries that reading as `received_at`, and its own time as `occurred_at`,
/// or the same reading when it sent none.
pub proof fn lemma_one_clock_reading_per_request(
    content_type: Seq<char>,
    body: Option<JsonValue>,
    max_batch_events: usize,
    now: i128,
)
    ensures
        spec_create_sheep(content_type, body, max_batch_events, now) matches Ok(accepted) ==> forall|i: int|
            0 <= i < accepted.len() ==> {
                &&& (#[trigger] accepted[i]).received_at == now
                &&& accepted[i].occurred_at == match accepted[i].sheep.time {
                    Some(t) => t,
                    None => now,
                }
            },
{
}

proof fn lemma_batch_errors_step(all: Seq<JsonValue>, i: int)
    requires
        0 <= i < all.len(),
    ensures
        batch_errors(all.take(i + 1)) == batch_errors(all.take(i)) + indexed(i, event_errors(all[i])),
{
    let t = all.take(i + 1);
    assert(t.drop_last() =~= all.take(i));
    assert(t.last() == all[i]);
}

/// Validate one event. Errors carry no batch index, so the single-event
/// response shape is unchanged.
fn validate_single(body: Option<JsonValue>) -> (r: Option<Result<Vec<Sheep>, AppError>>)
    ensures
        r is None <==> single_panics(body),
        r matches Some(v) ==> validated_view(v) == spec_validate_single(body),
        r matches Some(v) ==> times_in_range(v),
{
    match body {
        None => Some(Err(AppError::BadRequest("body must be valid JSON".to_owned()))),
        Some(value) => match validate_checked(value) {
            None => None,
            Some(Ok(sheep)) => {
                let mut accepted: Vec<Sheep> = Vec::new();
                accepted.push(sheep);
                assert(sheep_views(accepted@) =~= seq![accepted@[0]@]);
                Some(Ok(accepted))
            },
            Some(Err(errors)) => Some(Err(AppError::validation(errors))),
        },
    }
}

/// Validate a batch array. All-or-nothing: every event is validated and,
/// only if all pass, are they accepted. Each failure carries its event's
/// index. The size cap is enforced before validation, so an oversized batch
/// is rejected cheaply.
#[verifier::spinoff_prover]
#[verifier::rlimit(40)]
fn validate_batch(body: Option<JsonValue>, max_batch_events: usize) -> (r: Option<Result<Vec<Sheep>, AppError>>)
    ensures
        r is None <==> batch_panics(body, max_batch_events),
        r matches Some(v) ==> validated_view(v) == spec_validate_batch(body, max_batch_events),
        r matches Some(v) ==> times_in_range(v),
{
    let events = match body {
        None => {
            return Some(Err(AppError::BadRequest("body must be valid JSON".to_owned())));
        },
        Some(JsonValue::Array(events)) => events,
        Some(_) => {
            return Some(Err(AppError::BadRequest("batch body must be a JSON array".to_owned())));
        },
    };
    let ghost all = events@;
    let n = events.len();
    if n == 0 {
        return Some(Err(AppError::BadRequest("batch must contain at least one event".to_owned())));
    }
    if n > max_batch_events {
        let mut message = "batch has ".to_owned();
        push_decimal(&mut message, n as u64);
        message.append(" events, but the maximum is ");
        push_decimal(&mut message, max_batch_events as u64);
        return Some(Err(AppError::BadRequest(message)));
    }
    let mut rest = events;
    let mut accepted: Vec<Sheep> = Vec::new();
    let mut errors: Vec<ValidationItem> = Vec::new();
    let mut i: usize = 0;
    assert(all.skip(0) =~= all);
    assert(all.take(0) =~= Seq::<JsonValue>::empty());
    assert(items_view(errors@) =~= batch_errors(all.take(0)));
    while i < n
        invariant
            n == all.len(),
            0 < n <= max_batch_events,
            body == Some(JsonValue::Array(events)),
            events@ == all,
            i <= n,
            rest@ == all.skip(i as int),
            items_view(errors@) == batch_errors(all.take(i as int)),
            forall|j: int| 0 <= j < i ==> time_converts_to_utc(#[trigger] all[j]),
            batch_errors(all.take(i as int)).len() == 0 ==> {
                &&& accepted@.len() == i
                &&& forall|j: int|
                    0 <= j < i ==> (#[trigger] accepted@[j])@ == spec_validate(all[j])->Ok_0
                &&& forall|j: int| 0 <= j < i ==> time_in_utc_range((#[trigger] accepted@[j]).time)
            },
        decreases n - i,
    {
        let event = rest.remove(0);
        assert(event == all[i as int]);
        assert(rest@ =~= all.skip(i + 1));
        proof {
            lemma_batch_errors_step(all, i as int);
        }
        match validate_checked(event) {
            None => {
                assert(!time_converts_to_utc(all[i as int]));
                return None;
            },
            Some(Ok(sheep)) => {
                assert(event_errors(all[i as int]) =~= Seq::<Seq<char>>::empty());
                assert(indexed(i as int, event_errors(all[i as int])) =~= Seq::<(Option<usize>, Seq<char>)>::empty());
                assert(batch_errors(all.take(i + 1)) =~= batch_errors(all.take(i as int)));
                accepted.push(sheep);
            },
            Some(Err(details)) => {
                let ghost before = items_view(errors@);
                let mut k: usize = 0;
                while k < details.len()
                    invariant
                        k <= details@.len(),
                        items_view(errors@) == before + indexed(i as int, strings_view(details@.take(k as int))),
                    decreases details@.len() - k,
                {
                    let ghost prior = errors@;
                    errors.push(ValidationItem::at(i, details[k].clone()));
                    proof {
                        let sv = strings_view(details@.take(k as int));
                        assert(strings_view(details@.take(k + 1)) =~= sv.push(details@[k as int]@));
                        assert(indexed(i as int, sv.push(details@[k as int]@)) =~= indexed(i as int, sv).push((Some(i), details@[k as int]@)));
                        assert(items_view(errors@) =~= items_view(prior).push((Some(i), details@[k as int]@)));
                    }
                    k = k + 1;
                }
                assert(details@.take(details@.len() as int) =~= details@);
                assert(event_errors(all[i as int]) == strings_view(details@));
                assert(event_errors(all[i as int]).len() > 0);
            },
        }
        i = i + 1;
    }
    assert(all.take(n as int) =~= all);
    if errors.len() > 0 {
        return Some(Err(AppError::Validation(errors)));
    }
    assert(sheep_views(accepted@) =~= batch_sheep(all));
    Some(Ok(accepted))
}

/// The media type of a `Content-Type` value: the text before any `;`
/// parameters, trimmed.
fn media_type(content_type: &str) -> (r: Vec<char>)
    ensures
        r@ == media_type_of(content_type@),
{
    let v = chars_of(content_type);
    let end = match find_char(&v, ';') {
        Some(k) => k,
        None => v.len(),
    };
    let before = copy_range(&v, 0, end);
    assert(before@ == before_first(content_type@, ';')) by {
        assert(v@.subrange(0, v@.len() as int) =~= v@);
        assert(v@.take(end as int) =~= v@.subrange(0, end as int));
    }
    let (lo, hi) = trim_bounds(&before);
    copy_range(&before, lo, hi)
}

/// Validate the events of a request to `POST /api/v1/sheeps`: a single
/// CloudEvent (`application/cloudevents+json`) or a batch array
/// (`application/cloudevents-batch+json`). `None` where validation would
/// panic on an event time that cannot be moved to UTC.
pub fn validate_request(content_type: &str, body: Option<JsonValue>, max_batch_events: usize) -> (r: Option<Result<Vec<Sheep>, AppError>>)
    ensures
        r is None <==> create_panics(content_type@, body, max_batch_events),
        r matches Some(v) ==> validated_view(v) == spec_validate_request(content_type@, body, max_batch_events),
        r matches Some(v) ==> times_in_range(v),
{
    let media = media_type(content_type);
    let single = chars_of(CLOUDEVENTS_JSON);
    let batch = chars_of(CLOUDEVENTS_BATCH_JSON);
    if equal_ignoring_ascii_case(media.as_slice(), single.as_slice()) {
        validate_single(body)
    } else if equal_ignoring_ascii_case(media.as_slice(), batch.as_slice()) {
        validate_batch(body, max_batch_events)
    } else {
        Some(Err(AppError::UnsupportedMediaType(
            "Content-Type must be application/cloudevents+json or application/cloudevents-batch+json".to_owned(),
        )))
    }
}

/// Stamp every accepted event with the same `now`.
pub fn stamp_all(sheep: Vec<Sheep>, now: i128) -> (r: Vec<AcceptedSheep>)
    ensures
        accepted_view(r@) == sheep_views(sheep@).map_values(|s: SheepView| stamped(s, now)),
        utc_representable(now as int) && times_in_range(Ok::<Vec<Sheep>, AppError>(sheep)) ==> forall|i: int|
            0 <= i < r@.len() ==> accepted_in_range(#[trigger] r@[i]),
{
    let ghost all = sheep@;
    let n = sheep.len();
    let mut rest = sheep;
    let mut out: Vec<AcceptedSheep> = Vec::new();
    let mut i: usize = 0;
    assert(all.skip(0) =~= all);
    while i < n
        invariant
            n == all.len(),
            i <= n,
            rest@ == all.skip(i as int),
            out@.len() == i,
            forall|j: int| 0 <= j < i ==> (#[trigger] out@[j])@ == stamped(all[j]@, now),
            forall|j: int| 0 <= j < i ==> (#[trigger] out@[j]).sheep == all[j] && out@[j].received_at == now
                && out@[j].occurred_at == match all[j].time { Some(t) => t, None => now },
        decreases n - i,
    {
        let one = rest.remove(0);
        assert(one == all[i as int]);
        assert(rest@ =~= all.skip(i + 1));
        out.push(stamp(one, now));
        i = i + 1;
    }
    assert(accepted_view(out@) =~= sheep_views(all).map_values(|s: SheepView| stamped(s, now)));
    out
}

/// Answer a request to `POST /api/v1/sheeps` whose clock reads `now`: the
/// accepted events, all stamped at `now`, or the error. `None` where the
/// service panics on an event time that cannot be moved to UTC.
pub fn create_sheep_at(content_type: &str, body: Option<JsonValue>, max_batch_events: usize, now: i128) -> (r: Option<Outcome>)
    ensures
        r is None <==> create_panics(content_type@, body, max_batch_events),
        r matches Some(o) ==> outcome_view(o) == spec_create_sheep(content_type@, body, max_batch_events, now),
{
    match validate_request(content_type, body, max_batch_events) {
        None => None,
        Some(Ok(sheep)) => Some(Ok(stamp_all(sheep, now))),
        Some(Err(e)) => Some(Err(e)),
    }
}

/// Answer a request to `POST /api/v1/sheeps`. The clock is read once, and
/// only when the events are accepted; they all carry that reading as
/// `received_at`. `None` where the service panics on an event time that
/// cannot be moved to UTC.
pub fn create_sheep(content_type: &str, body: Option<JsonValue>, max_batch_events: usize) -> (r: Option<Outcome>)
    ensures
        r is None <==> create_panics(content_type@, body, max_batch_events),
        r matches Some(Err(e)) ==> spec_validate_request(content_type@, body, max_batch_events) == Err::<Seq<SheepView>, AppErrorView>(e@),
        r matches Some(Ok(v)) ==> forall|i: int| 0 <= i < v@.len() ==> accepted_in_range(#[trigger] v@[i]),
        r matches Some(Ok(v)) ==> exists|now: i128|
            utc_representable(now as int) && Ok::<Seq<AcceptedSheepView>, AppErrorView>(accepted_view(v@))
                == #[trigger] spec_create_sheep(content_type@, body, max_batch_events, now),
{
    match validate_request(content_type, body, max_batch_events) {
        None => None,
        Some(Ok(sheep)) => {
            let now = now_utc();
            let accepted = stamp_all(sheep, now);
            assert(utc_representable(now as int) && Ok::<Seq<AcceptedSheepView>, AppErrorView>(accepted_view(accepted@))
                == spec_create_sheep(content_type@, body, max_batch_events, now));
            Some(Ok(accepted))
        },
        Some(Err(e)) => Some(Err(e)),
    }
}

} // verus!
