//! Publishing accepted events: the flat message each one becomes, the
//! `Producer` seam that enqueues it, and what an enqueue failure answers.

use vstd::prelude::*;

use crate::error::{AppError, AppErrorView};
use crate::error_tracking::error_chain;
use crate::ingest::AcceptedSheepView;
use crate::instant::{unix_seconds, unix_seconds_of, within_offset_date_time_range};
use crate::json::{entry, is_text, text, JsonValue};
use crate::stamp::AcceptedSheep;
use crate::text::{decimal, push_decimal};

verus! {

/// One message ready for Kafka: partition key, serialized value, and the two
/// attributes carried as headers.
#[derive(Debug, PartialEq)]
pub struct ProducedMessage {
    pub key: String,
    pub payload: Vec<u8>,
    pub specversion: String,
    pub received_at_unix: i64,
}

/// A `ProducedMessage` as its contracts see it.
pub struct ProducedMessageView {
    pub key: Seq<char>,
    pub payload: Seq<u8>,
    pub specversion: Seq<char>,
    pub received_at_unix: i64,
}

impl View for ProducedMessage {
    type V = ProducedMessageView;

    open spec fn view(&self) -> ProducedMessageView {
        ProducedMessageView {
            key: self.key@,
            payload: self.payload@,
            specversion: self.specversion@,
            received_at_unix: self.received_at_unix,
        }
    }
}

impl Clone for ProducedMessage {
    fn clone(&self) -> (r: Self)
        ensures
            r@ == self@,
    {
        ProducedMessage {
            key: self.key.clone(),
            payload: self.payload.clone(),
            specversion: self.specversion.clone(),
            received_at_unix: self.received_at_unix,
        }
    }
}

/// Why a synchronous enqueue failed. Broker-side delivery failures are not
/// reported here: they resolve later, off the request path.
#[derive(Debug, PartialEq)]
pub enum ProduceError {
    /// The local producer queue is full (overload back-pressure).
    QueueFull,
    /// Any other enqueue-time error from the client.
    Backend(String),
}

/// One call of `produce`: the message handed over and what came back.
pub type Attempt = (ProducedMessageView, Result<(), ProduceError>);

/// Emits an accepted sheep to Kafka.
pub trait Producer {
    /// Whether this producer keeps the log of its `produce` calls that
    /// `attempts` names. A producer that keeps the default claims nothing of
    /// its calls.
    open spec fn tracks(&self) -> bool {
        false
    }

    /// Every call of `produce` so far, in order, with what it returned.
    closed spec fn attempts(&self) -> Seq<Attempt> {
        Seq::empty()
    }

    /// Enqueue one message. Non-blocking; `Err` means local back-pressure.
    fn produce(&mut self, message: &ProducedMessage) -> (r: Result<(), ProduceError>)
        ensures
            old(self).tracks() ==> final(self).tracks() && final(self).attempts() == old(self).attempts().push(
                (message@, r),
            ),
    ;

    /// Drain buffered messages on shutdown, waiting at most `timeout`.
    fn flush(&mut self, timeout: std::time::Duration)
        ensures
            old(self).tracks() ==> final(self).tracks() && final(self).attempts() == old(self).attempts(),
    ;
}

/// An in-memory `Producer`: records every message, or fails every enqueue
/// with `QueueFull`.
pub struct FakeProducer {
    produced: Vec<ProducedMessage>,
    fail_queue_full: bool,
    log: Ghost<Seq<Attempt>>,
}

/// The views of produced messages.
pub open spec fn messages_view(v: Seq<ProducedMessage>) -> Seq<ProducedMessageView> {
    v.map_values(|m: ProducedMessage| m@)
}

impl FakeProducer {
    /// The messages recorded so far.
    pub closed spec fn recorded(&self) -> Seq<ProducedMessageView> {
        messages_view(self.produced@)
    }

    /// Whether every enqueue fails with `QueueFull`.
    pub closed spec fn fails(&self) -> bool {
        self.fail_queue_full
    }

    /// A producer that records every message.
    pub fn new() -> (r: Self)
        ensures
            r.recorded() == Seq::<ProducedMessageView>::empty(),
            !r.fails(),
            r.attempts() == Seq::<Attempt>::empty(),
    {
        let r = FakeProducer { produced: Vec::new(), fail_queue_full: false, log: Ghost(Seq::empty()) };
        assert(r.recorded() =~= Seq::<ProducedMessageView>::empty());
        r
    }

    /// A producer whose every enqueue fails with `QueueFull`.
    pub fn failing_queue_full() -> (r: Self)
        ensures
            r.recorded() == Seq::<ProducedMessageView>::empty(),
            r.fails(),
            r.attempts() == Seq::<Attempt>::empty(),
    {
        let r = FakeProducer { produced: Vec::new(), fail_queue_full: true, log: Ghost(Seq::empty()) };
        assert(r.recorded() =~= Seq::<ProducedMessageView>::empty());
        r
    }

    /// All messages recorded so far, in order.
    pub fn produced(&self) -> (r: Vec<ProducedMessage>)
        ensures
            messages_view(r@) == self.recorded(),
    {
        let mut out: Vec<ProducedMessage> = Vec::new();
        let mut i: usize = 0;
        while i < self.produced.len()
            invariant
                i <= self.produced@.len(),
                messages_view(out@) == messages_view(self.produced@.take(i as int)),
            decreases self.produced@.len() - i,
        {
            let ghost before = out@;
            out.push(self.produced[i].clone());
            proof {
                assert(self.produced@.take(i + 1) =~= self.produced@.take(i as int).push(self.produced@[i as int]));
                assert(messages_view(out@) =~= messages_view(before).push(self.produced@[i as int]@));
                assert(messages_view(self.produced@.take(i + 1)) =~= messages_view(self.produced@.take(i as int)).push(self.produced@[i as int]@));
            }
            i = i + 1;
        }
        assert(self.produced@.take(self.produced@.len() as int) =~= self.produced@);
        out
    }
}

impl Producer for FakeProducer {
    open spec fn tracks(&self) -> bool {
        true
    }

    closed spec fn attempts(&self) -> Seq<Attempt> {
        self.log@
    }

    fn produce(&mut self, message: &ProducedMessage) -> (r: Result<(), ProduceError>)
        ensures
            final(self).fails() == old(self).fails(),
            old(self).fails() ==> r == Err::<(), ProduceError>(ProduceError::QueueFull)
                && final(self).recorded() == old(self).recorded(),
            !old(self).fails() ==> r is Ok && final(self).recorded() == old(self).recorded().push(message@),
    {
        if self.fail_queue_full {
            self.log = Ghost(self.log@.push((message@, Err(ProduceError::QueueFull))));
            return Err(ProduceError::QueueFull);
        }
        let ghost before = self.produced@;
        self.produced.push(message.clone());
        assert(messages_view(self.produced@) =~= messages_view(before).push(message@));
        self.log = Ghost(self.log@.push((message@, Ok(()))));
        Ok(())
    }

    fn flush(&mut self, _timeout: std::time::Duration) {
    }
}

/// An accepted sheep flattened for Kafka, before its payload is written out
/// as JSON text: partition key, payload, and the two header attributes.
#[derive(Debug, PartialEq)]
pub struct FlattenedSheep {
    pub key: String,
    pub payload: JsonValue,
    pub specversion: String,
    pub received_at_unix: i64,
}

/// `v` is the flat payload of an accepted event: `id`, `type`, `source`,
/// `subject`, `time` as Unix seconds of `occurred_at`, and `data` (null when
/// absent), in that order.
pub open spec fn is_flattened_payload(v: JsonValue, a: AcceptedSheepView) -> bool {
    match v {
        JsonValue::Object(e) => {
            &&& e@.len() == 6
            &&& e@[0].0@ == "id"@ && is_text(e@[0].1, a.sheep.id)
            &&& e@[1].0@ == "type"@ && is_text(e@[1].1, a.sheep.event_type)
            &&& e@[2].0@ == "source"@ && is_text(e@[2].1, a.sheep.source)
            &&& e@[3].0@ == "subject"@ && is_text(e@[3].1, a.sheep.subject)
            &&& e@[4].0@ == "time"@ && e@[4].1 == JsonValue::Int(unix_seconds(a.occurred_at as int) as i64)
            &&& e@[5].0@ == "data"@ && e@[5].1 == match a.sheep.data {
                Some(d) => d,
                None => JsonValue::Null,
            }
        },
        _ => false,
    }
}

/// Flatten an accepted sheep for Kafka. The payload carries the CloudEvents
/// fields relevant for metering; `received_at` is not part of it and travels
/// as a header. The partition key is the event subject.
pub fn serialize_flattened(accepted: AcceptedSheep) -> (r: FlattenedSheep)
    requires
        within_offset_date_time_range(accepted.occurred_at),
        within_offset_date_time_range(accepted.received_at),
    ensures
        r.key@ == accepted.sheep.subject@,
        r.specversion@ == accepted.sheep.specversion@,
        r.received_at_unix as int == unix_seconds(accepted.received_at as int),
        is_flattened_payload(r.payload, accepted@),
{
    let ghost view = accepted@;
    let time = unix_seconds_of(accepted.occurred_at);
    let received_at_unix = unix_seconds_of(accepted.received_at);
    let sheep = accepted.sheep;
    let key = sheep.subject.clone();
    let data = match sheep.data {
        Some(d) => d,
        None => JsonValue::Null,
    };
    let mut payload: Vec<(String, JsonValue)> = Vec::new();
    payload.push(entry("id", text(sheep.id.as_str())));
    payload.push(entry("type", text(sheep.event_type.as_str())));
    payload.push(entry("source", text(sheep.source.as_str())));
    payload.push(entry("subject", text(sheep.subject.as_str())));
    payload.push(entry("time", JsonValue::Int(time)));
    payload.push(entry("data", data));
    FlattenedSheep {
        key,
        payload: JsonValue::Object(payload),
        specversion: sheep.specversion,
        received_at_unix,
    }
}

/// The decimal rendering of a signed integer, as `Display` writes it.
pub open spec fn signed_decimal(n: int) -> Seq<char> {
    if n < 0 {
        "-"@ + decimal((-n) as nat)
    } else {
        decimal(n as nat)
    }
}

/// The headers of the Kafka record for a message: its CloudEvents
/// `specversion`, and `received_at` as decimal Unix seconds.
pub fn record_headers(message: &ProducedMessage) -> (r: Vec<(String, String)>)
    ensures
        r@.len() == 2,
        r@[0].0@ == "specversion"@,
        r@[0].1@ == message.specversion@,
        r@[1].0@ == "received_at"@,
        r@[1].1@ == signed_decimal(message.received_at_unix as int),
{
    let n = message.received_at_unix;
    let mut received_at = String::new();
    if n < 0 {
        received_at.append("-");
        let magnitude = (-(n as i128)) as u64;
        push_decimal(&mut received_at, magnitude);
    } else {
        push_decimal(&mut received_at, n as u64);
    }
    let mut headers: Vec<(String, String)> = Vec::new();
    headers.push(("specversion".to_owned(), message.specversion.clone()));
    headers.push(("received_at".to_owned(), received_at));
    headers
}

/// Calls `anyhow::Error::msg`. Claimed: the error's cause chain is the
/// message alone (the error displays as the message and has no source).
#[verifier::external_body]
fn error_from_message(message: String) -> (r: anyhow::Error)
    ensures
        error_chain(r) == seq![message@],
{
    anyhow::Error::msg(message)
}

/// What a failed enqueue is answered with.
pub open spec fn failure_answer(error: ProduceError) -> AppErrorView {
    match error {
        ProduceError::QueueFull => AppErrorView::ServiceUnavailable("kafka queue full"@),
        ProduceError::Backend(_) => AppErrorView::Internal,
    }
}

/// What a failed enqueue answers: a full local queue asks the client to
/// retry (`503`); any other enqueue error is an internal failure (`500`).
pub fn publish_failure(error: ProduceError) -> (r: AppError)
    ensures
        r@ == failure_answer(error),
        error matches ProduceError::Backend(message) ==> r matches AppError::Internal(cause) && error_chain(cause)
            == seq![message@],
{
    match error {
        ProduceError::QueueFull => AppError::ServiceUnavailable("kafka queue full".to_owned()),
        ProduceError::Backend(message) => AppError::Internal(error_from_message(message)),
    }
}

/// `m` is the message an accepted sheep is published as: keyed by its
/// subject, its flat payload written out by `encode`, and its `specversion`
/// and `received_at` (in Unix seconds) as the header attributes.
pub open spec fn is_message_for<F: Fn(&JsonValue) -> Vec<u8>>(
    m: ProducedMessageView,
    a: AcceptedSheepView,
    encode: F,
) -> bool {
    &&& m.key == a.sheep.subject
    &&& m.specversion == a.sheep.specversion
    &&& m.received_at_unix as int == unix_seconds(a.received_at as int)
    &&& exists|payload: JsonValue, bytes: Vec<u8>|
        #![trigger is_flattened_payload(payload, a), call_ensures(encode, (&payload,), bytes)]
        is_flattened_payload(payload, a) && call_ensures(encode, (&payload,), bytes) && bytes@
            == m.payload
}

/// `log` holds, for the first `k` accepted sheep in order, a call of
/// `produce` with the sheep's message that succeeded.
pub open spec fn succeeded_prefix<F: Fn(&JsonValue) -> Vec<u8>>(
    log: Seq<Attempt>,
    accepted: Seq<AcceptedSheep>,
    k: int,
    encode: F,
) -> bool {
    &&& log.len() == k
    &&& forall|i: int| 0 <= i < k ==> is_message_for((#[trigger] log[i]).0, accepted[i]@, encode) && log[i].1 is Ok
}

/// The calls of `produce` that publishing made, `after` being the log with
/// `before` its start: one per accepted sheep in order, each with the sheep's
/// message, stopping after the first that failed; the answer is `Ok` exactly
/// when every sheep was enqueued, and otherwise the answer to that failure.
pub open spec fn published_as<F: Fn(&JsonValue) -> Vec<u8>>(
    after: Seq<Attempt>,
    before: Seq<Attempt>,
    accepted: Seq<AcceptedSheep>,
    encode: F,
    r: Result<(), AppError>,
) -> bool {
    let log = after.skip(before.len() as int);
    &&& before.len() <= after.len()
    &&& after.take(before.len() as int) == before
    &&& match r {
        Ok(()) => succeeded_prefix(log, accepted, accepted.len() as int, encode),
        Err(e) => {
            &&& 1 <= log.len() <= accepted.len()
            &&& succeeded_prefix(log.drop_last(), accepted, log.len() - 1, encode)
            &&& is_message_for(log.last().0, accepted[log.len() - 1]@, encode)
            &&& log.last().1 matches Err(error) && e@ == failure_answer(error)
        },
    }
}

/// Publish accepted sheep in order, one message each, each payload written
/// out by `encode`. Stops at the first enqueue that fails and answers it as
/// `publish_failure` does; the messages enqueued before it stay enqueued.
pub fn publish_accepted<P: Producer + ?Sized, F: Fn(&JsonValue) -> Vec<u8>>(
    producer: &mut P,
    accepted: Vec<AcceptedSheep>,
    encode: F,
) -> (r: Result<(), AppError>)
    requires
        forall|i: int|
            0 <= i < accepted@.len() ==> within_offset_date_time_range((#[trigger] accepted@[i]).occurred_at)
                && within_offset_date_time_range(accepted@[i].received_at),
        forall|payload: &JsonValue| #[trigger] call_requires(encode, (payload,)),
    ensures
        accepted@.len() == 0 ==> r is Ok,
        r matches Err(e) ==> exists|error: ProduceError| e@ == #[trigger] failure_answer(error),
        old(producer).tracks() ==> final(producer).tracks() && published_as(
            final(producer).attempts(),
            old(producer).attempts(),
            accepted@,
            encode,
            r,
        ),
{
    let ghost before = producer.attempts();
    let ghost tracked_from_start = producer.tracks();
    let ghost all = accepted@;
    let n = accepted.len();
    let mut rest = accepted;
    let mut i: usize = 0;
    assert(all.skip(0) =~= all);
    proof {
        if tracked_from_start {
            assert(producer.attempts().take(before.len() as int) =~= before);
            assert(producer.attempts().skip(before.len() as int) =~= Seq::<Attempt>::empty());
        }
    }
    while i < n
        invariant
            n == all.len(),
            i <= n,
            before == old(producer).attempts(),
            tracked_from_start == old(producer).tracks(),
            all == accepted@,
            rest@ == all.skip(i as int),
            forall|j: int|
                0 <= j < all.len() ==> within_offset_date_time_range((#[trigger] all[j]).occurred_at)
                    && within_offset_date_time_range(all[j].received_at),
            forall|payload: &JsonValue| #[trigger] call_requires(encode, (payload,)),
            tracked_from_start ==> {
                &&& producer.tracks()
                &&& before.len() <= producer.attempts().len()
                &&& producer.attempts().take(before.len() as int) == before
                &&& succeeded_prefix(producer.attempts().skip(before.len() as int), all, i as int, encode)
            },
        decreases n - i,
    {
        let one = rest.remove(0);
        assert(one == all[i as int]);
        assert(rest@ =~= all.skip(i + 1));
        let ghost one_view = one@;
        let flat = serialize_flattened(one);
        let bytes = encode(&flat.payload);
        let ghost payload = flat.payload;
        let ghost written = bytes;
        let message = ProducedMessage {
            key: flat.key,
            payload: bytes,
            specversion: flat.specversion,
            received_at_unix: flat.received_at_unix,
        };
        assert(is_message_for(message@, one_view, encode)) by {
            assert(is_flattened_payload(payload, one_view) && call_ensures(encode, (&payload,), written));
        }
        let ghost log_before = producer.attempts();
        let outcome = producer.produce(&message);
        proof {
            if tracked_from_start {
                let after = producer.attempts();
                assert(after == log_before.push((message@, outcome)));
                assert(after.take(before.len() as int) =~= before) by {
                    assert(log_before.take(before.len() as int) == before);
                }
                let old_log = log_before.skip(before.len() as int);
                let log = after.skip(before.len() as int);
                assert(log =~= old_log.push((message@, outcome)));
                assert(log.drop_last() =~= old_log);
                assert(log.last() == (message@, outcome));
                if outcome is Ok {
                    assert forall|j: int| 0 <= j < i + 1 implies is_message_for((#[trigger] log[j]).0, all[j]@, encode)
                        && log[j].1 is Ok by {
                        if j < i {
                            assert(log[j] == old_log[j]);
                        }
                    }
                }
            }
        }
        match outcome {
            Ok(()) => {},
            Err(error) => {
                let answer = publish_failure(error);
                assert(answer@ == failure_answer(error));
                return Err(answer);
            },
        }
        i = i + 1;
    }
    Ok(())
}

} // verus!
