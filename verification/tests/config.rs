use countingsheep::config::kafka::KafkaConfig;
use countingsheep::config::posthog::{non_blank, parse_enabled, DisabledReason, Enablement, PostHogConfig};
use countingsheep::config::server::{
    parse_max_batch_events, parse_port, Server, DEFAULT_MAX_BATCH_EVENTS, DEFAULT_PORT,
};
use countingsheep::config::ConfigError;

fn some(s: &str) -> Option<String> {
    Some(s.to_string())
}

// ----- Kafka -----

#[test]
fn default_has_empty_brokers_and_sane_names() {
    let c = KafkaConfig::default();
    assert!(c.brokers().is_empty());
    assert_eq!(c.topic(), "sheeps");
    assert_eq!(c.client_id(), "countingsheep");
}

#[test]
fn debug_redacts_the_sasl_password() {
    let c = KafkaConfig::from_environment(
        some("localhost:9092"),
        some("sheeps"),
        some("countingsheep"),
        some("sasl_ssl"),
        some("SCRAM-SHA-256"),
        some("user"),
        some("supersecret"),
    );
    let rendered = c.redacted_debug();
    assert!(!rendered.contains("supersecret"), "password must be redacted");
    assert!(rendered.contains("localhost:9092"), "non-secrets are shown");
}

#[test]
fn kafka_blank_values_fall_back_to_defaults() {
    let c = KafkaConfig::from_environment(some("  "), some(""), None, some(" \t"), None, None, None);
    assert_eq!(c.brokers(), "");
    assert_eq!(c.topic(), "sheeps");
    assert_eq!(c.client_id(), "countingsheep");
    assert_eq!(c.security_protocol(), "plaintext");
    assert_eq!(c.sasl(), None);
}

#[test]
fn kafka_sasl_needs_all_three_parts() {
    let partial = KafkaConfig::from_environment(
        some("b:9092"),
        None,
        None,
        None,
        some("PLAIN"),
        some("user"),
        None,
    );
    assert_eq!(partial.sasl(), None);
    let full = KafkaConfig::for_test_sasl("b:9092", "sasl_ssl");
    assert_eq!(full.sasl(), Some(("SCRAM-SHA-256", "user", "secret")));
    assert_eq!(full.security_protocol(), "sasl_ssl");
}

#[test]
fn from_config_rejects_empty_brokers() {
    assert_eq!(
        KafkaConfig::default().producer_settings(),
        Err(ConfigError::MissingBrokers),
        "an unconfigured broker must fail startup"
    );
}

#[test]
fn from_config_builds_with_brokers() {
    let settings = KafkaConfig::for_test("localhost:9092").producer_settings().unwrap();
    let get = |k: &str| settings.iter().find(|(key, _)| key == k).map(|(_, v)| v.as_str());
    assert_eq!(get("bootstrap.servers"), Some("localhost:9092"));
    assert_eq!(get("client.id"), Some("countingsheep"));
    assert_eq!(get("security.protocol"), Some("plaintext"));
    assert_eq!(get("enable.idempotence"), Some("true"));
    assert_eq!(get("acks"), Some("all"));
    assert_eq!(get("sasl.password"), None);
}

#[test]
fn producer_settings_carry_sasl_credentials() {
    let settings = KafkaConfig::for_test_sasl("b:9092", "sasl_ssl").producer_settings().unwrap();
    let get = |k: &str| settings.iter().find(|(key, _)| key == k).map(|(_, v)| v.as_str());
    assert_eq!(get("sasl.mechanism"), Some("SCRAM-SHA-256"));
    assert_eq!(get("sasl.username"), Some("user"));
    assert_eq!(get("sasl.password"), Some("secret"));
}

#[test]
fn config_error_messages_name_the_fix() {
    assert_eq!(ConfigError::MissingBrokers.message(), "KAFKA_BROKERS must be set");
    assert_eq!(ConfigError::InvalidPort.message(), "PORT must be a valid port number");
    assert_eq!(
        ConfigError::InvalidMaxBatchEvents.message(),
        "MAX_BATCH_EVENTS must be a non-negative integer"
    );
    assert_eq!(
        ConfigError::MaxBatchEventsBelowOne.message(),
        "MAX_BATCH_EVENTS must be at least 1"
    );
}

// ----- PostHog -----

#[test]
fn inactive_without_a_key() {
    let config = PostHogConfig::from_environment(None, None, None);
    assert!(config.active().is_none());
    assert_eq!(config.disabled_reason(), Some(DisabledReason::NoApiKey));
}

#[test]
fn active_when_key_present_and_enabled() {
    let config = PostHogConfig::from_environment(some("phc_key"), None, None);
    let active = config.active().expect("should be active");
    assert_eq!(active.api_key, "phc_key");
    assert_eq!(active.host, None);
    assert_eq!(config.disabled_reason(), None);
}

#[test]
fn killswitch_disables_even_with_a_key() {
    let config = PostHogConfig::from_environment(
        some("phc_key"),
        some("false"),
        some("https://eu.i.posthog.com"),
    );
    assert!(config.active().is_none());
    assert_eq!(config.disabled_reason(), Some(DisabledReason::Killswitch));
}

#[test]
fn active_carries_the_host_when_set() {
    let config = PostHogConfig::from_environment(some("k"), some("true"), some("https://eu.i.posthog.com"));
    assert_eq!(config.active().unwrap().host, Some("https://eu.i.posthog.com"));
}

#[test]
fn parse_enabled_accepts_truthy_and_falsey_spellings() {
    for raw in ["true", "1", "YES", "On"] {
        assert_eq!(parse_enabled(raw), Enablement::On, "{raw} should be truthy");
    }
    for raw in ["false", "0", "no", "OFF"] {
        assert_eq!(parse_enabled(raw), Enablement::Off, "{raw} should be falsey");
    }
}

#[test]
fn parse_enabled_trims_surrounding_whitespace() {
    assert_eq!(parse_enabled("  yes \n"), Enablement::On);
    assert_eq!(parse_enabled("\toff "), Enablement::Off);
    assert_eq!(parse_enabled(" ture "), Enablement::Invalid(" ture ".to_string()));
}

#[test]
fn parse_enabled_treats_garbage_as_invalid_without_failing() {
    assert_eq!(
        parse_enabled("ture"),
        Enablement::Invalid("ture".to_string()),
        "an unparseable value must resolve to Invalid, not abort startup"
    );
}

#[test]
fn garbage_enabled_disables_capture_with_an_actionable_reason() {
    let config = PostHogConfig::from_environment(some("phc_key"), some("ture"), None);
    assert!(
        config.active().is_none(),
        "an unparseable flag must not enable third-party egress"
    );
    let reason = config.disabled_reason().expect("should be disabled");
    assert_eq!(reason, DisabledReason::InvalidEnabledValue("ture".to_string()));
    assert!(reason.is_misconfiguration());
    let rendered = reason.message();
    assert!(
        rendered.contains("POSTHOG_ENABLED must be") && rendered.contains("ture"),
        "message should name the fix and the bad value, got: {rendered}"
    );
}

#[test]
fn disabled_reason_messages() {
    assert_eq!(DisabledReason::Killswitch.message(), "POSTHOG_ENABLED=false");
    assert_eq!(DisabledReason::NoApiKey.message(), "POSTHOG_API_KEY not set");
    assert_eq!(
        DisabledReason::InvalidEnabledValue("ture".to_string()).message(),
        "POSTHOG_ENABLED must be one of true/false/1/0/yes/no/on/off, got \"ture\"; treating error tracking as disabled"
    );
    assert!(!DisabledReason::Killswitch.is_misconfiguration());
    assert!(!DisabledReason::NoApiKey.is_misconfiguration());
}

#[test]
fn non_blank_treats_whitespace_as_unset() {
    assert_eq!(non_blank(Some("   ".to_string())), None);
    assert_eq!(non_blank(None), None);
    assert_eq!(non_blank(Some(" k ".to_string())), Some(" k ".to_string()));
}

#[test]
fn debug_redacts_the_api_key() {
    let config = PostHogConfig::from_environment(some("phc_supersecret"), None, None);
    let rendered = config.redacted_debug();
    assert!(!rendered.contains("supersecret"), "api key leaked into Debug: {rendered}");
    assert!(rendered.contains("redacted"));
}

#[test]
fn debug_renders_every_non_secret_field() {
    let config = PostHogConfig::from_environment(some("phc_x"), some("ture"), some("https://h"));
    assert_eq!(
        config.redacted_debug(),
        "PostHogConfig { api_key: Some(\"<redacted>\"), enabled: Invalid(\"ture\"), host: Some(\"https://h\") }"
    );
    let bare = PostHogConfig::default();
    assert_eq!(bare.redacted_debug(), "PostHogConfig { api_key: None, enabled: On, host: None }");
}

#[test]
fn active_iff_no_disabled_reason_on_samples() {
    for (key, enabled) in [
        (None, None),
        (some("k"), None),
        (some("k"), some("off")),
        (None, some("off")),
        (some("k"), some("maybe")),
    ] {
        let config = PostHogConfig::from_environment(key, enabled, None);
        assert_eq!(config.active().is_some(), config.disabled_reason().is_none());
    }
}

// ----- Server -----

#[test]
fn exposed_binds_all_interfaces() {
    assert_eq!(Server::bind_ip(true), [0, 0, 0, 0]);
}

#[test]
fn not_exposed_binds_loopback() {
    assert_eq!(Server::bind_ip(false), [127, 0, 0, 1]);
}

#[test]
fn parse_port_accepts_valid() {
    assert_eq!(parse_port("8080").unwrap(), 8080);
}

#[test]
fn parse_port_rejects_out_of_range_with_actionable_message() {
    let error = parse_port("70000").unwrap_err();
    assert!(error.message().contains("PORT must be a valid port number"));
}

#[test]
fn parse_port_rejects_non_numeric() {
    assert!(parse_port("eighty").is_err());
}

#[test]
fn parse_port_follows_str_parse_edges() {
    assert_eq!(parse_port("65535"), Ok(65535));
    assert_eq!(parse_port("65536"), Err(ConfigError::InvalidPort));
    assert_eq!(parse_port("+80"), Ok(80));
    assert_eq!(parse_port("0080"), Ok(80));
    assert_eq!(parse_port(""), Err(ConfigError::InvalidPort));
    assert_eq!(parse_port("+"), Err(ConfigError::InvalidPort));
    assert_eq!(parse_port("-1"), Err(ConfigError::InvalidPort));
    assert_eq!(parse_port(" 80"), Err(ConfigError::InvalidPort));
    for n in [0u16, 1, 9, 10, 443, 8888, 65535] {
        assert_eq!(parse_port(&n.to_string()), Ok(n));
        assert_eq!(parse_port(&n.to_string()), n.to_string().parse::<u16>().map_err(|_| ConfigError::InvalidPort));
    }
}

#[test]
fn parse_max_batch_events_accepts_valid() {
    assert_eq!(parse_max_batch_events("500").unwrap(), 500);
}

#[test]
fn parse_max_batch_events_rejects_zero_with_actionable_message() {
    let error = parse_max_batch_events("0").unwrap_err();
    assert!(error.message().contains("MAX_BATCH_EVENTS must be at least 1"));
}

#[test]
fn parse_max_batch_events_rejects_non_numeric() {
    assert!(parse_max_batch_events("lots").is_err());
}

#[test]
fn parse_max_batch_events_errors_are_distinct() {
    assert_eq!(parse_max_batch_events("lots"), Err(ConfigError::InvalidMaxBatchEvents));
    assert_eq!(parse_max_batch_events("-5"), Err(ConfigError::InvalidMaxBatchEvents));
    assert_eq!(parse_max_batch_events("0"), Err(ConfigError::MaxBatchEventsBelowOne));
    assert_eq!(parse_max_batch_events("1"), Ok(1));
    assert_eq!(
        parse_max_batch_events("99999999999999999999999"),
        Err(ConfigError::InvalidMaxBatchEvents)
    );
    assert_eq!(parse_max_batch_events(&usize::MAX.to_string()), Ok(usize::MAX));
}

#[test]
fn default_max_batch_events_is_1000() {
    assert_eq!(DEFAULT_MAX_BATCH_EVENTS, 1000);
}

#[test]
fn server_from_environment_uses_defaults_when_unset() {
    let server = Server::from_environment(false, None, None, PostHogConfig::default(), KafkaConfig::default())
        .unwrap();
    assert_eq!(server.ip, [127, 0, 0, 1]);
    assert_eq!(server.port, DEFAULT_PORT);
    assert_eq!(server.port, 8888);
    assert_eq!(server.max_batch_events, 1000);
}

#[test]
fn server_from_environment_reads_values_and_reports_the_first_error() {
    let server = Server::from_environment(
        true,
        some("9000"),
        some("25"),
        PostHogConfig::default(),
        KafkaConfig::for_test("b:9092"),
    )
    .unwrap();
    assert_eq!(server.ip, [0, 0, 0, 0]);
    assert_eq!(server.port, 9000);
    assert_eq!(server.max_batch_events, 25);
    assert_eq!(server.kafka.brokers(), "b:9092");

    let bad_both = Server::from_environment(
        true,
        some("nope"),
        some("0"),
        PostHogConfig::default(),
        KafkaConfig::default(),
    );
    assert!(matches!(bad_both, Err(ConfigError::InvalidPort)));
    let bad_cap = Server::from_environment(
        true,
        some("80"),
        some("0"),
        PostHogConfig::default(),
        KafkaConfig::default(),
    );
    assert!(matches!(bad_cap, Err(ConfigError::MaxBatchEventsBelowOne)));
}

#[test]
fn debug_delegates_to_the_redacting_posthog_debug() {
    let config = Server::from_environment(
        false,
        None,
        None,
        PostHogConfig::from_environment(Some("phc_supersecret".into()), None, None),
        KafkaConfig::for_test_sasl("localhost:9092", "sasl_ssl"),
    )
    .unwrap();
    let rendered = config.redacted_debug();
    assert!(rendered.contains("PostHogConfig"));
    assert!(rendered.contains("max_batch_events: 1000"));
    assert!(rendered.contains("ip: 127.0.0.1"));
    assert!(rendered.contains("port: 8888"));
    assert!(!rendered.contains("supersecret"));
    assert!(!rendered.contains("\"secret\""));
    assert!(rendered.contains("localhost:9092"));
}

#[test]
fn blank_enabled_counts_as_unset() {
    for blank in ["", "   ", "\t\n"] {
        let config = PostHogConfig::from_environment(some("phc_key"), some(blank), None);
        let active = config.active().expect("a blank flag leaves capture on");
        assert_eq!(active.api_key, "phc_key");
        assert_eq!(config.disabled_reason(), None);
    }
}
