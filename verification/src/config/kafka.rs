//! Kafka producer configuration. The SASL password is redacted from the
//! configuration's debug rendering.

use vstd::prelude::*;

use crate::config::posthog::{non_blank, spec_non_blank};
use crate::config::server::ConfigError;
use crate::sheep::opt_view;
use crate::text::{debug_quoted, option_debug, push_option_debug, str_debug};

verus! {

/// The topic used when `KAFKA_TOPIC` is unset.
pub const DEFAULT_TOPIC: &'static str = "sheeps";

/// The client id used when `KAFKA_CLIENT_ID` is unset.
pub const DEFAULT_CLIENT_ID: &'static str = "countingsheep";

/// The security protocol used when `KAFKA_SECURITY_PROTOCOL` is unset.
pub const DEFAULT_SECURITY_PROTOCOL: &'static str = "plaintext";

/// Kafka producer settings.
pub struct KafkaConfig {
    brokers: String,
    topic: String,
    client_id: String,
    security_protocol: String,
    sasl_mechanism: Option<String>,
    sasl_username: Option<String>,
    sasl_password: Option<String>,
}

/// A `KafkaConfig` with its text taken as character sequences.
pub struct KafkaConfigView {
    pub brokers: Seq<char>,
    pub topic: Seq<char>,
    pub client_id: Seq<char>,
    pub security_protocol: Seq<char>,
    pub sasl_mechanism: Option<Seq<char>>,
    pub sasl_username: Option<Seq<char>>,
    pub sasl_password: Option<Seq<char>>,
}

impl View for KafkaConfig {
    type V = KafkaConfigView;

    closed spec fn view(&self) -> KafkaConfigView {
        KafkaConfigView {
            brokers: self.brokers@,
            topic: self.topic@,
            client_id: self.client_id@,
            security_protocol: self.security_protocol@,
            sasl_mechanism: opt_view(self.sasl_mechanism),
            sasl_username: opt_view(self.sasl_username),
            sasl_password: opt_view(self.sasl_password),
        }
    }
}

/// A non-blank value, or `default` in its place.
pub open spec fn or_default(value: Option<Seq<char>>, default: Seq<char>) -> Seq<char> {
    match spec_non_blank(value) {
        Some(v) => v,
        None => default,
    }
}

fn value_or(value: Option<String>, default: &str) -> (r: String)
    ensures
        r@ == or_default(opt_view(value), default@),
{
    match non_blank(value) {
        Some(v) => v,
        None => default.to_owned(),
    }
}

/// How the configuration renders with `{:?}`: the SASL password is never
/// shown, only whether there is one.
pub open spec fn kafka_debug(c: KafkaConfigView) -> Seq<char> {
    "KafkaConfig { brokers: "@ + str_debug(c.brokers) + ", topic: "@ + str_debug(c.topic)
        + ", client_id: "@ + str_debug(c.client_id) + ", security_protocol: "@ + str_debug(
        c.security_protocol,
    ) + ", sasl_mechanism: "@ + option_debug(c.sasl_mechanism) + ", sasl_username: "@
        + option_debug(c.sasl_username) + ", sasl_password: "@ + (if c.sasl_password is Some {
        "Some(\"<redacted>\")"@
    } else {
        "None"@
    }) + " }"@
}

/// The SASL credentials, present only when all three are configured.
pub open spec fn spec_sasl(c: KafkaConfigView) -> Option<(Seq<char>, Seq<char>, Seq<char>)> {
    match (c.sasl_mechanism, c.sasl_username, c.sasl_password) {
        (Some(m), Some(u), Some(p)) => Some((m, u, p)),
        _ => None,
    }
}

/// The librdkafka client settings a producer is built with, in order.
pub open spec fn spec_producer_settings(c: KafkaConfigView) -> Seq<(Seq<char>, Seq<char>)> {
    let base = seq![
        ("bootstrap.servers"@, c.brokers),
        ("client.id"@, c.client_id),
        ("security.protocol"@, c.security_protocol),
        ("enable.idempotence"@, "true"@),
        ("acks"@, "all"@),
        ("compression.type"@, "lz4"@),
        ("message.timeout.ms"@, "30000"@),
    ];
    match spec_sasl(c) {
        Some((m, u, p)) => base + seq![("sasl.mechanism"@, m), ("sasl.username"@, u), ("sasl.password"@, p)],
        None => base,
    }
}

/// Client settings as pairs of character sequences.
pub open spec fn settings_view(v: Seq<(String, String)>) -> Seq<(Seq<char>, Seq<char>)> {
    v.map_values(|e: (String, String)| (e.0@, e.1@))
}

fn push_setting(out: &mut Vec<(String, String)>, key: &str, value: &str)
    ensures
        settings_view(final(out)@) == settings_view(old(out)@).push((key@, value@)),
{
    out.push((key.to_owned(), value.to_owned()));
    assert(settings_view(out@) =~= settings_view(old(out)@).push((key@, value@)));
}

impl KafkaConfig {
    /// Builds the configuration from the values of `KAFKA_BROKERS`,
    /// `KAFKA_TOPIC`, `KAFKA_CLIENT_ID`, `KAFKA_SECURITY_PROTOCOL` and
    /// `KAFKA_SASL_*`. Blank values fall back to defaults; an unset broker
    /// list stays empty, which `producer_settings` rejects.
    pub fn from_environment(
        brokers: Option<String>,
        topic: Option<String>,
        client_id: Option<String>,
        security_protocol: Option<String>,
        sasl_mechanism: Option<String>,
        sasl_username: Option<String>,
        sasl_password: Option<String>,
    ) -> (r: Self)
        ensures
            r@.brokers == or_default(opt_view(brokers), Seq::<char>::empty()),
            r@.topic == or_default(opt_view(topic), DEFAULT_TOPIC@),
            r@.client_id == or_default(opt_view(client_id), DEFAULT_CLIENT_ID@),
            r@.security_protocol == or_default(opt_view(security_protocol), DEFAULT_SECURITY_PROTOCOL@),
            r@.sasl_mechanism == spec_non_blank(opt_view(sasl_mechanism)),
            r@.sasl_username == spec_non_blank(opt_view(sasl_username)),
            r@.sasl_password == spec_non_blank(opt_view(sasl_password)),
    {
        let b = match non_blank(brokers) {
            Some(v) => v,
            None => String::new(),
        };
        KafkaConfig {
            brokers: b,
            topic: value_or(topic, DEFAULT_TOPIC),
            client_id: value_or(client_id, DEFAULT_CLIENT_ID),
            security_protocol: value_or(security_protocol, DEFAULT_SECURITY_PROTOCOL),
            sasl_mechanism: non_blank(sasl_mechanism),
            sasl_username: non_blank(sasl_username),
            sasl_password: non_blank(sasl_password),
        }
    }

    /// A configuration with the given broker list and defaults otherwise.
    pub fn for_test(brokers: &str) -> (r: Self)
        ensures
            r@.brokers == brokers@,
            r@.topic == DEFAULT_TOPIC@,
            r@.client_id == DEFAULT_CLIENT_ID@,
            r@.security_protocol == DEFAULT_SECURITY_PROTOCOL@,
            r@.sasl_mechanism is None,
            r@.sasl_username is None,
            r@.sasl_password is None,
    {
        KafkaConfig {
            brokers: brokers.to_owned(),
            topic: DEFAULT_TOPIC.to_owned(),
            client_id: DEFAULT_CLIENT_ID.to_owned(),
            security_protocol: DEFAULT_SECURITY_PROTOCOL.to_owned(),
            sasl_mechanism: None,
            sasl_username: None,
            sasl_password: None,
        }
    }

    /// A configuration with the given broker list and security protocol and
    /// fixed SASL test credentials.
    pub fn for_test_sasl(brokers: &str, security_protocol: &str) -> (r: Self)
        ensures
            r@.brokers == brokers@,
            r@.topic == DEFAULT_TOPIC@,
            r@.client_id == DEFAULT_CLIENT_ID@,
            r@.security_protocol == security_protocol@,
            r@.sasl_mechanism == Some("SCRAM-SHA-256"@),
            r@.sasl_username == Some("user"@),
            r@.sasl_password == Some("secret"@),
    {
        KafkaConfig {
            brokers: brokers.to_owned(),
            topic: DEFAULT_TOPIC.to_owned(),
            client_id: DEFAULT_CLIENT_ID.to_owned(),
            security_protocol: security_protocol.to_owned(),
            sasl_mechanism: Some("SCRAM-SHA-256".to_owned()),
            sasl_username: Some("user".to_owned()),
            sasl_password: Some("secret".to_owned()),
        }
    }

    /// The bootstrap broker list.
    pub fn brokers(&self) -> (r: &str)
        ensures
            r@ == self@.brokers,
    {
        self.brokers.as_str()
    }

    /// The Kafka topic name.
    pub fn topic(&self) -> (r: &str)
        ensures
            r@ == self@.topic,
    {
        self.topic.as_str()
    }

    /// The Kafka client identifier.
    pub fn client_id(&self) -> (r: &str)
        ensures
            r@ == self@.client_id,
    {
        self.client_id.as_str()
    }

    /// The security protocol (e.g. `plaintext`, `sasl_ssl`).
    pub fn security_protocol(&self) -> (r: &str)
        ensures
            r@ == self@.security_protocol,
    {
        self.security_protocol.as_str()
    }

    /// SASL credentials `(mechanism, username, password)`, present only when
    /// all three are configured.
    pub fn sasl(&self) -> (r: Option<(&str, &str, &str)>)
        ensures
            match r {
                Some((m, u, p)) => spec_sasl(self@) == Some((m@, u@, p@)),
                None => spec_sasl(self@) is None,
            },
    {
        match (&self.sasl_mechanism, &self.sasl_username, &self.sasl_password) {
            (Some(m), Some(u), Some(p)) => Some((m.as_str(), u.as_str(), p.as_str())),
            _ => None,
        }
    }

    /// The client settings a producer is built with. Fails when no broker
    /// is configured: Kafka is required at startup.
    pub fn producer_settings(&self) -> (r: Result<Vec<(String, String)>, ConfigError>)
        ensures
            match r {
                Ok(settings) => self@.brokers.len() > 0 && settings_view(settings@) == spec_producer_settings(self@),
                Err(e) => self@.brokers.len() == 0 && e == ConfigError::MissingBrokers,
            },
    {
        if self.brokers.unicode_len() == 0 {
            return Err(ConfigError::MissingBrokers);
        }
        let mut out: Vec<(String, String)> = Vec::new();
        assert(settings_view(out@) =~= Seq::<(Seq<char>, Seq<char>)>::empty());
        push_setting(&mut out, "bootstrap.servers", self.brokers.as_str());
        push_setting(&mut out, "client.id", self.client_id.as_str());
        push_setting(&mut out, "security.protocol", self.security_protocol.as_str());
        push_setting(&mut out, "enable.idempotence", "true");
        push_setting(&mut out, "acks", "all");
        push_setting(&mut out, "compression.type", "lz4");
        push_setting(&mut out, "message.timeout.ms", "30000");
        match self.sasl() {
            Some((m, u, p)) => {
                push_setting(&mut out, "sasl.mechanism", m);
                push_setting(&mut out, "sasl.username", u);
                push_setting(&mut out, "sasl.password", p);
            },
            None => {},
        }
        assert(settings_view(out@) =~= spec_producer_settings(self@));
        Ok(out)
    }

    /// The configuration as `{:?}` renders it, with the password redacted.
    pub fn redacted_debug(&self) -> (r: String)
        ensures
            r@ == kafka_debug(self@),
    {
        let mut out = "KafkaConfig { brokers: ".to_owned();
        out.append(debug_quoted(self.brokers.as_str()).as_str());
        out.append(", topic: ");
        out.append(debug_quoted(self.topic.as_str()).as_str());
        out.append(", client_id: ");
        out.append(debug_quoted(self.client_id.as_str()).as_str());
        out.append(", security_protocol: ");
        out.append(debug_quoted(self.security_protocol.as_str()).as_str());
        out.append(", sasl_mechanism: ");
        push_option_debug(&mut out, &self.sasl_mechanism);
        out.append(", sasl_username: ");
        push_option_debug(&mut out, &self.sasl_username);
        out.append(", sasl_password: ");
        if self.sasl_password.is_some() {
            out.append("Some(\"<redacted>\")");
        } else {
            out.append("None");
        }
        out.append(" }");
        out
    }
}

impl Default for KafkaConfig {
    /// Empty brokers and the default names.
    fn default() -> (r: Self)
        ensures
            r@.brokers == Seq::<char>::empty(),
            r@.topic == DEFAULT_TOPIC@,
            r@.client_id == DEFAULT_CLIENT_ID@,
            r@.security_protocol == DEFAULT_SECURITY_PROTOCOL@,
            r@.sasl_mechanism is None,
            r@.sasl_username is None,
            r@.sasl_password is None,
    {
        KafkaConfig {
            brokers: String::new(),
            topic: DEFAULT_TOPIC.to_owned(),
            client_id: DEFAULT_CLIENT_ID.to_owned(),
            security_protocol: DEFAULT_SECURITY_PROTOCOL.to_owned(),
            sasl_mechanism: None,
            sasl_username: None,
            sasl_password: None,
        }
    }
}

/// `settings` holds exactly one entry for `key`, and its value is `value`.
pub open spec fn has_single_setting(settings: Seq<(Seq<char>, Seq<char>)>, key: Seq<char>, value: Seq<char>) -> bool {
    exists|i: int|
        0 <= i < settings.len() && #[trigger] settings[i] == (key, value) && forall|j: int|
            0 <= j < settings.len() && (#[trigger] settings[j]).0 == key ==> j == i
}

/// The fixed producer settings, whatever the configuration: idempotent
/// delivery acknowledged by all replicas, lz4 compression, and 30 s for a
/// message to be delivered; the broker list, client id and security protocol
/// come from the configuration, and SASL is set exactly when configured.
pub proof fn lemma_producer_settings_fixed_values(c: KafkaConfigView)
    ensures
        has_single_setting(spec_producer_settings(c), "message.timeout.ms"@, "30000"@),
        has_single_setting(spec_producer_settings(c), "compression.type"@, "lz4"@),
        has_single_setting(spec_producer_settings(c), "acks"@, "all"@),
        has_single_setting(spec_producer_settings(c), "enable.idempotence"@, "true"@),
        has_single_setting(spec_producer_settings(c), "bootstrap.servers"@, c.brokers),
        has_single_setting(spec_producer_settings(c), "client.id"@, c.client_id),
        has_single_setting(spec_producer_settings(c), "security.protocol"@, c.security_protocol),
        c.sasl_mechanism is Some && c.sasl_username is Some && c.sasl_password is Some ==> has_single_setting(
            spec_producer_settings(c),
            "sasl.password"@,
            c.sasl_password->0,
        ),
        !(c.sasl_mechanism is Some && c.sasl_username is Some && c.sasl_password is Some) ==> forall|j: int|
            0 <= j < spec_producer_settings(c).len() ==> (#[trigger] spec_producer_settings(c)[j]).0
                != "sasl.password"@,
{
    let keys = seq![
        "bootstrap.servers"@,
        "client.id"@,
        "security.protocol"@,
        "enable.idempotence"@,
        "acks"@,
        "compression.type"@,
        "message.timeout.ms"@,
        "sasl.mechanism"@,
        "sasl.username"@,
        "sasl.password"@,
    ];
    reveal_strlit("bootstrap.servers");
    reveal_strlit("client.id");
    reveal_strlit("security.protocol");
    reveal_strlit("enable.idempotence");
    reveal_strlit("acks");
    reveal_strlit("compression.type");
    reveal_strlit("message.timeout.ms");
    reveal_strlit("sasl.mechanism");
    reveal_strlit("sasl.username");
    reveal_strlit("sasl.password");
    assert forall|a: int, b: int| 0 <= a < b < 10 implies keys[a] != keys[b] by {
        if keys[a].len() == keys[b].len() {
            assert(keys[a][0] != keys[b][0] || keys[a][5] != keys[b][5]);
        }
    }
    let s = spec_producer_settings(c);
    assert(forall|j: int| 0 <= j < s.len() ==> s[j].0 == keys[j]);
    assert(s[6] == ("message.timeout.ms"@, "30000"@));
    assert(s[5] == ("compression.type"@, "lz4"@));
    assert(s[4] == ("acks"@, "all"@));
    assert(s[3] == ("enable.idempotence"@, "true"@));
    assert(s[0] == ("bootstrap.servers"@, c.brokers));
    assert(s[1] == ("client.id"@, c.client_id));
    assert(s[2] == ("security.protocol"@, c.security_protocol));
    if spec_sasl(c) is Some {
        assert(s[9] == ("sasl.password"@, c.sasl_password->0));
    }
}

/// The debug rendering does not depend on the SASL password's value: two
/// configurations that differ only in which password they hold render alike.
pub proof fn lemma_debug_hides_sasl_password(a: KafkaConfigView, b: KafkaConfigView)
    requires
        a.brokers == b.brokers,
        a.topic == b.topic,
        a.client_id == b.client_id,
        a.security_protocol == b.security_protocol,
        a.sasl_mechanism == b.sasl_mechanism,
        a.sasl_username == b.sasl_username,
        a.sasl_password is Some <==> b.sasl_password is Some,
    ensures
        kafka_debug(a) == kafka_debug(b),
{
}

} // verus!
