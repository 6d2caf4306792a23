//! Configuration for the HTTP server.

use vstd::prelude::*;

use crate::config::kafka::{kafka_debug, lemma_debug_hides_sasl_password, KafkaConfig};
use crate::config::posthog::{lemma_debug_hides_api_key, posthog_debug, PostHogConfig};
use crate::sheep::opt_view;
use crate::text::{chars_of, decimal, digit_char, push_decimal};

verus! {

/// Default port to bind when `PORT` is unset.
pub const DEFAULT_PORT: u16 = 8888;

/// Default ceiling on events per batch when `MAX_BATCH_EVENTS` is unset.
pub const DEFAULT_MAX_BATCH_EVENTS: usize = 1000;

/// A configuration value the service cannot start with.
#[derive(Debug, PartialEq, Eq)]
pub enum ConfigError {
    /// `PORT` is not a port number.
    InvalidPort,
    /// `MAX_BATCH_EVENTS` is not a non-negative integer.
    InvalidMaxBatchEvents,
    /// `MAX_BATCH_EVENTS` is `0`, which would reject every batch.
    MaxBatchEventsBelowOne,
    /// `KAFKA_BROKERS` is unset or blank.
    MissingBrokers,
}

/// The message of a configuration error, naming the fix.
pub open spec fn config_error_message(e: ConfigError) -> Seq<char> {
    match e {
        ConfigError::InvalidPort => "PORT must be a valid port number"@,
        ConfigError::InvalidMaxBatchEvents => "MAX_BATCH_EVENTS must be a non-negative integer"@,
        ConfigError::MaxBatchEventsBelowOne => "MAX_BATCH_EVENTS must be at least 1"@,
        ConfigError::MissingBrokers => "KAFKA_BROKERS must be set"@,
    }
}

impl ConfigError {
    /// The message that names the fix.
    pub fn message(&self) -> (r: String)
        ensures
            r@ == config_error_message(*self),
    {
        match self {
            ConfigError::InvalidPort => "PORT must be a valid port number".to_owned(),
            ConfigError::InvalidMaxBatchEvents => "MAX_BATCH_EVENTS must be a non-negative integer".to_owned(),
            ConfigError::MaxBatchEventsBelowOne => "MAX_BATCH_EVENTS must be at least 1".to_owned(),
            ConfigError::MissingBrokers => "KAFKA_BROKERS must be set".to_owned(),
        }
    }
}

/// An ASCII decimal digit.
pub open spec fn is_digit(c: char) -> bool {
    0x30 <= c as u32 <= 0x39
}

/// The value of an ASCII decimal digit.
pub open spec fn digit_value(c: char) -> nat {
    ((c as u32) - 0x30) as nat
}

/// The value of a string of decimal digits.
pub open spec fn digits_value(s: Seq<char>) -> nat
    decreases s.len(),
{
    if s.len() == 0 {
        0
    } else {
        digits_value(s.drop_last()) * 10 + digit_value(s.last())
    }
}

/// `FromStr` for an unsigned integer, before the range check: an optional
/// `+`, then at least one ASCII digit and nothing else.
pub open spec fn unsigned_text(s: Seq<char>) -> Option<nat> {
    let body = unsigned_body(s);
    if body.len() > 0 && all_digits(body) {
        Some(digits_value(body))
    } else {
        None
    }
}

/// The text after an optional leading `+`.
pub open spec fn unsigned_body(s: Seq<char>) -> Seq<char> {
    if s.len() > 0 && s[0] == '+' {
        s.drop_first()
    } else {
        s
    }
}

/// Every character is an ASCII decimal digit.
pub open spec fn all_digits(s: Seq<char>) -> bool {
    forall|i: int| 0 <= i < s.len() ==> is_digit(#[trigger] s[i])
}

/// `str::parse` into an unsigned integer type whose maximum is `max`.
pub open spec fn parse_unsigned_spec(s: Seq<char>, max: nat) -> Option<nat> {
    match unsigned_text(s) {
        Some(v) => if v <= max {
            Some(v)
        } else {
            None
        },
        None => None,
    }
}

proof fn lemma_digits_value_grows(s: Seq<char>, k: int)
    requires
        0 <= k <= s.len(),
    ensures
        digits_value(s.take(k)) <= digits_value(s),
    decreases s.len() - k,
{
    if k < s.len() {
        lemma_digits_value_grows(s, k + 1);
        let t = s.take(k + 1);
        assert(t.drop_last() =~= s.take(k));
    } else {
        assert(s.take(k) =~= s);
    }
}

/// Parses an unsigned decimal integer no larger than `max`, as `str::parse`
/// does for an unsigned type with that maximum.
fn parse_unsigned(s: &str, max: u64) -> (r: Option<u64>)
    ensures
        match r {
            Some(v) => parse_unsigned_spec(s@, max as nat) == Some(v as nat),
            None => parse_unsigned_spec(s@, max as nat) is None,
        },
{
    let v = chars_of(s);
    let start: usize = if v.len() > 0 && v[0] == '+' {
        1
    } else {
        0
    };
    let ghost body = unsigned_body(s@);
    assert(body =~= v@.skip(start as int));
    if start == v.len() {
        return None;
    }
    let mut value: u64 = 0;
    let mut i = start;
    while i < v.len()
        invariant
            start <= i <= v@.len(),
            start < v@.len(),
            v@ == s@,
            body == unsigned_body(s@),
            body == v@.skip(start as int),
            value as nat == digits_value(body.take(i - start)),
            value <= max,
            forall|j: int| 0 <= j < i - start ==> is_digit(body[j]),
        decreases v@.len() - i,
    {
        let c = v[i];
        let n = c as u32;
        if !(0x30 <= n && n <= 0x39) {
            assert(body[i - start] == c);
            assert(!is_digit(body[i - start]));
            return None;
        }
        let d = (n - 0x30) as u64;
        let ghost t = body.take(i - start + 1);
        assert(t.drop_last() =~= body.take(i - start));
        assert(t.last() == c);
        if d > max {
            proof {
                lemma_digits_value_grows(body, i - start + 1);
            }
            return None;
        }
        if value > (max - d) / 10 {
            proof {
                assert(value * 10 + d > max) by (nonlinear_arith)
                    requires
                        value > (max - d) / 10,
                        d <= 9,
                ;
                lemma_digits_value_grows(body, i - start + 1);
            }
            return None;
        }
        proof {
            assert(value * 10 + d <= max) by (nonlinear_arith)
                requires
                    value <= (max - d) / 10,
                    d <= max || value == 0,
            ;
        }
        value = value * 10 + d;
        i = i + 1;
    }
    assert(body.take(body.len() as int) =~= body);
    Some(value)
}

proof fn lemma_decimal_is_digits(n: nat)
    ensures
        decimal(n).len() > 0,
        all_digits(decimal(n)),
        digits_value(decimal(n)) == n,
    decreases n,
{
    let d = digit_char(n % 10);
    assert(is_digit(d) && digit_value(d) == n % 10);
    if n < 10 {
        assert(decimal(n) == seq![d]);
        assert(seq![d].drop_last() =~= Seq::<char>::empty());
        assert(digits_value(seq![d]) == digits_value(Seq::<char>::empty()) * 10 + digit_value(d));
    }
    if n >= 10 {
        lemma_decimal_is_digits(n / 10);
        let s = decimal(n / 10);
        assert(decimal(n) == s.push(d));
        assert(s.push(d).drop_last() =~= s);
        assert(digits_value(s.push(d)) == digits_value(s) * 10 + digit_value(d));
        assert(n == (n / 10) * 10 + n % 10) by {
            vstd::arithmetic::div_mod::lemma_fundamental_div_mod(n as int, 10);
        }
        assert forall|i: int| 0 <= i < s.push(d).len() implies is_digit(#[trigger] s.push(d)[i]) by {
            if i < s.len() {
                assert(s.push(d)[i] == s[i]);
            }
        }
    }
}

/// The server's debug rendering depends on neither the PostHog API key's
/// value nor the Kafka password's: configurations that differ only in those
/// secrets render alike.
pub proof fn lemma_server_debug_hides_secrets(a: Server, b: Server)
    requires
        a.ip == b.ip,
        a.port == b.port,
        a.max_batch_events == b.max_batch_events,
        a.posthog@.enabled == b.posthog@.enabled,
        a.posthog@.host == b.posthog@.host,
        a.posthog@.api_key is Some <==> b.posthog@.api_key is Some,
        a.kafka@.brokers == b.kafka@.brokers,
        a.kafka@.topic == b.kafka@.topic,
        a.kafka@.client_id == b.kafka@.client_id,
        a.kafka@.security_protocol == b.kafka@.security_protocol,
        a.kafka@.sasl_mechanism == b.kafka@.sasl_mechanism,
        a.kafka@.sasl_username == b.kafka@.sasl_username,
        a.kafka@.sasl_password is Some <==> b.kafka@.sasl_password is Some,
    ensures
        server_debug(a) == server_debug(b),
{
    lemma_debug_hides_api_key(a.posthog@, b.posthog@);
    lemma_debug_hides_sasl_password(a.kafka@, b.kafka@);
}

/// The decimal text of every port number parses back to that port.
pub proof fn lemma_port_text_round_trips(port: u16)
    ensures
        spec_parse_port(decimal(port as nat)) == Ok::<u16, ConfigError>(port),
{
    lemma_decimal_is_digits(port as nat);
    assert(unsigned_body(decimal(port as nat)) == decimal(port as nat));
}

/// The decimal text of every cap of at least one parses back to that cap.
pub proof fn lemma_max_batch_events_text_round_trips(max_batch_events: usize)
    requires
        max_batch_events >= 1,
    ensures
        spec_parse_max_batch_events(decimal(max_batch_events as nat)) == Ok::<usize, ConfigError>(max_batch_events),
{
    lemma_decimal_is_digits(max_batch_events as nat);
    assert(unsigned_body(decimal(max_batch_events as nat)) == decimal(max_batch_events as nat));
}

/// What `PORT` parses to: a decimal number that fits a port.
pub open spec fn spec_parse_port(raw: Seq<char>) -> Result<u16, ConfigError> {
    match parse_unsigned_spec(raw, u16::MAX as nat) {
        Some(v) => Ok(v as u16),
        None => Err(ConfigError::InvalidPort),
    }
}

/// What `MAX_BATCH_EVENTS` parses to: a decimal number that fits a `usize`
/// and is at least `1`, since a cap below `1` would reject every batch.
pub open spec fn spec_parse_max_batch_events(raw: Seq<char>) -> Result<usize, ConfigError> {
    match parse_unsigned_spec(raw, usize::MAX as nat) {
        Some(v) => if v < 1 {
            Err(ConfigError::MaxBatchEventsBelowOne)
        } else {
            Ok(v as usize)
        },
        None => Err(ConfigError::InvalidMaxBatchEvents),
    }
}

/// Parses the `PORT` value, with an error that names the fix.
pub fn parse_port(raw: &str) -> (r: Result<u16, ConfigError>)
    ensures
        r == spec_parse_port(raw@),
{
    match parse_unsigned(raw, u16::MAX as u64) {
        Some(v) => Ok(v as u16),
        None => Err(ConfigError::InvalidPort),
    }
}

/// Parses the `MAX_BATCH_EVENTS` value. A cap below `1` is rejected as a
/// misconfiguration rather than silently disabling ingestion.
pub fn parse_max_batch_events(raw: &str) -> (r: Result<usize, ConfigError>)
    ensures
        r == spec_parse_max_batch_events(raw@),
{
    match parse_unsigned(raw, usize::MAX as u64) {
        Some(v) => if v < 1 {
            Err(ConfigError::MaxBatchEventsBelowOne)
        } else {
            Ok(v as usize)
        },
        None => Err(ConfigError::InvalidMaxBatchEvents),
    }
}

/// The port setting: the parsed `PORT` value, or the default when unset.
pub open spec fn port_setting(raw: Option<Seq<char>>) -> Result<u16, ConfigError> {
    match raw {
        Some(p) => spec_parse_port(p),
        None => Ok(DEFAULT_PORT),
    }
}

/// The batch cap setting: the parsed `MAX_BATCH_EVENTS` value, or the default
/// when unset.
pub open spec fn max_batch_events_setting(raw: Option<Seq<char>>) -> Result<usize, ConfigError> {
    match raw {
        Some(m) => spec_parse_max_batch_events(m),
        None => Ok(DEFAULT_MAX_BATCH_EVENTS),
    }
}

/// The IPv4 address to bind: every interface when exposed, loopback otherwise.
pub open spec fn bind_address(expose_externally: bool) -> [u8; 4] {
    if expose_externally {
        [0u8, 0u8, 0u8, 0u8]
    } else {
        [127u8, 0u8, 0u8, 1u8]
    }
}

/// The HTTP server configuration.
pub struct Server {
    /// The IPv4 address to bind.
    pub ip: [u8; 4],
    pub port: u16,
    /// Maximum number of events accepted in a single batch submission.
    pub max_batch_events: usize,
    /// PostHog error-tracking configuration.
    pub posthog: PostHogConfig,
    /// Kafka producer configuration.
    pub kafka: KafkaConfig,
}

/// How an IPv4 address renders: its four octets in decimal, dot-separated.
pub open spec fn ip_text(ip: [u8; 4]) -> Seq<char> {
    decimal(ip[0] as nat) + "."@ + decimal(ip[1] as nat) + "."@ + decimal(ip[2] as nat) + "."@
        + decimal(ip[3] as nat)
}

/// How the server configuration renders with `{:?}`: the PostHog and Kafka
/// settings through their own redacting renderings.
pub open spec fn server_debug(s: Server) -> Seq<char> {
    "Server { ip: "@ + ip_text(s.ip) + ", port: "@ + decimal(s.port as nat) + ", max_batch_events: "@
        + decimal(s.max_batch_events as nat) + ", posthog: "@ + posthog_debug(s.posthog@)
        + ", kafka: "@ + kafka_debug(s.kafka@) + " }"@
}

impl Server {
    /// The configuration as `{:?}` renders it, with the PostHog API key and
    /// the Kafka password redacted.
    pub fn redacted_debug(&self) -> (r: String)
        ensures
            r@ == server_debug(*self),
    {
        let mut out = "Server { ip: ".to_owned();
        push_decimal(&mut out, self.ip[0] as u64);
        out.append(".");
        push_decimal(&mut out, self.ip[1] as u64);
        out.append(".");
        push_decimal(&mut out, self.ip[2] as u64);
        out.append(".");
        push_decimal(&mut out, self.ip[3] as u64);
        out.append(", port: ");
        push_decimal(&mut out, self.port as u64);
        out.append(", max_batch_events: ");
        push_decimal(&mut out, self.max_batch_events as u64);
        out.append(", posthog: ");
        out.append(self.posthog.redacted_debug().as_str());
        out.append(", kafka: ");
        out.append(self.kafka.redacted_debug().as_str());
        out.append(" }");
        out
    }

    /// Builds the server configuration from the values of its environment
    /// variables: `PORT` and `MAX_BATCH_EVENTS` (each `None` when unset), and
    /// the PostHog and Kafka settings.
    ///
    /// `expose_externally` decides the bind address: `0.0.0.0` (all
    /// interfaces) when `true`, `127.0.0.1` (loopback only) otherwise.
    /// A bad `PORT` is reported before a bad `MAX_BATCH_EVENTS`.
    pub fn from_environment(
        expose_externally: bool,
        port: Option<String>,
        max_batch_events: Option<String>,
        posthog: PostHogConfig,
        kafka: KafkaConfig,
    ) -> (r: Result<Server, ConfigError>)
        ensures
            port_setting(opt_view(port)) is Err ==> r == Err::<Server, ConfigError>(
                port_setting(opt_view(port))->Err_0,
            ),
            port_setting(opt_view(port)) is Ok && max_batch_events_setting(
                opt_view(max_batch_events),
            ) is Err ==> r == Err::<Server, ConfigError>(
                max_batch_events_setting(opt_view(max_batch_events))->Err_0,
            ),
            port_setting(opt_view(port)) is Ok && max_batch_events_setting(
                opt_view(max_batch_events),
            ) is Ok ==> r is Ok,
            r matches Ok(server) ==> {
                &&& server.ip == bind_address(expose_externally)
                &&& Ok::<u16, ConfigError>(server.port) == port_setting(opt_view(port))
                &&& Ok::<usize, ConfigError>(server.max_batch_events) == max_batch_events_setting(
                    opt_view(max_batch_events),
                )
                &&& server.posthog == posthog
                &&& server.kafka == kafka
            },
    {
        let ip = Self::bind_ip(expose_externally);
        let port = match port {
            Some(raw) => match parse_port(raw.as_str()) {
                Ok(p) => p,
                Err(e) => return Err(e),
            },
            None => DEFAULT_PORT,
        };
        let max_batch_events = match max_batch_events {
            Some(raw) => match parse_max_batch_events(raw.as_str()) {
                Ok(m) => m,
                Err(e) => return Err(e),
            },
            None => DEFAULT_MAX_BATCH_EVENTS,
        };
        Ok(Server { ip, port, max_batch_events, posthog, kafka })
    }

    /// The address to bind: `0.0.0.0` when exposed, `127.0.0.1` otherwise.
    pub fn bind_ip(expose_externally: bool) -> (r: [u8; 4])
        ensures
            r == bind_address(expose_externally),
    {
        if expose_externally {
            [0, 0, 0, 0]
        } else {
            [127, 0, 0, 1]
        }
    }
}

} // verus!
