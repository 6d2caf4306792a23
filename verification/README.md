# countingsheep

An HTTP service that ingests usage events in the CloudEvents v1.0.2 format
(`POST /api/v1/sheeps`, a single event or a batch), stamps them, and publishes
them to Kafka; server faults and panics are reported to PostHog.

The decisions of the service form a library verified with Verus:

- `src/sheep.rs`: validation of one event, collecting every failure.
- `src/stamp.rs`, `src/instant.rs`: the two timestamps of an accepted event.
- `src/ingest.rs`: content-type dispatch, batch rules (all-or-nothing, the
  size cap checked first), and what every request is answered with.
- `src/error.rs`: the `{ "errors": [...] }` envelope and status codes.
- `src/producer.rs`: the flat Kafka message, publishing accepted events in
  order through the `Producer` seam, and what an enqueue failure answers.
- `src/error_tracking.rs`: exception reports and the `$exception` event.
- `src/config/`: server, PostHog and Kafka settings from environment values.
- `src/json.rs`, `src/text.rs`: JSON documents and text helpers.

`app/` is the service around it: environment, HTTP (axum), JSON parsing
(serde_json), Kafka (rdkafka), PostHog and logging.
