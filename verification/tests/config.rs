use kafkust::cluster::{Cluster, SaslMechanism, SecurityConfig};
use kafkust::config::KafkaInfrastructure;
use kafkust::ident::{fresh_id, group_id, id_from_text, id_text};
use rdkafka::config::ClientConfig;

fn cluster(security: SecurityConfig) -> Cluster {
    Cluster {
        id: 0xa1a2a3a4b1b2c1c2d1d2d3d4d5d6d7d8,
        name: "staging".to_string(),
        brokers: "broker-1:9092,broker-2:9092".to_string(),
        security,
    }
}

fn entries(config: &ClientConfig) -> Vec<(String, String)> {
    let keys = [
        "bootstrap.servers",
        "security.protocol",
        "ssl.ca.location",
        "ssl.certificate.location",
        "ssl.key.location",
        "ssl.key.password",
        "sasl.mechanism",
        "sasl.username",
        "sasl.password",
        "group.id",
        "auto.offset.reset",
        "enable.auto.commit",
    ];
    let mut found = Vec::new();
    for key in keys {
        if let Some(value) = config.get(key) {
            found.push((key.to_string(), value.to_string()));
        }
    }
    assert_eq!(found.len(), config.config_map().len());
    found
}

fn pairs(expected: &[(&str, &str)]) -> Vec<(String, String)> {
    expected.iter().map(|(k, v)| (k.to_string(), v.to_string())).collect()
}

#[test]
fn plaintext_config_holds_brokers_and_protocol_only() {
    let config = KafkaInfrastructure::new().create_config(&cluster(SecurityConfig::Plaintext), None);
    assert_eq!(
        entries(&config),
        pairs(&[
            ("bootstrap.servers", "broker-1:9092,broker-2:9092"),
            ("security.protocol", "plaintext"),
        ])
    );
}

#[test]
fn plaintext_config_leaves_the_password_out() {
    let config = KafkaInfrastructure::new()
        .create_config(&cluster(SecurityConfig::Plaintext), Some("hunter2".to_string()));
    assert_eq!(config.get("sasl.password"), None);
    assert_eq!(config.config_map().len(), 2);
}

#[test]
fn ssl_config_holds_every_field_that_is_present() {
    let security = SecurityConfig::Ssl {
        ca_location: Some("/etc/ca.pem".to_string()),
        certificate_location: Some("/etc/client.pem".to_string()),
        key_location: Some("/etc/client.key".to_string()),
        key_password: Some("open sesame".to_string()),
    };
    let config = KafkaInfrastructure::new().create_config(&cluster(security), None);
    assert_eq!(
        entries(&config),
        pairs(&[
            ("bootstrap.servers", "broker-1:9092,broker-2:9092"),
            ("security.protocol", "ssl"),
            ("ssl.ca.location", "/etc/ca.pem"),
            ("ssl.certificate.location", "/etc/client.pem"),
            ("ssl.key.location", "/etc/client.key"),
            ("ssl.key.password", "open sesame"),
        ])
    );
}

#[test]
fn ssl_config_leaves_absent_fields_and_the_password_out() {
    let security = SecurityConfig::Ssl {
        ca_location: None,
        certificate_location: Some("/etc/client.pem".to_string()),
        key_location: None,
        key_password: None,
    };
    let config =
        KafkaInfrastructure::new().create_config(&cluster(security), Some("hunter2".to_string()));
    assert_eq!(
        entries(&config),
        pairs(&[
            ("bootstrap.servers", "broker-1:9092,broker-2:9092"),
            ("security.protocol", "ssl"),
            ("ssl.certificate.location", "/etc/client.pem"),
        ])
    );
}

#[test]
fn sasl_config_holds_mechanism_user_password_and_ca() {
    let security = SecurityConfig::SaslSsl {
        mechanism: SaslMechanism::ScramSha256,
        username: "alice".to_string(),
        ca_location: Some("/etc/ca.pem".to_string()),
    };
    let config =
        KafkaInfrastructure::new().create_config(&cluster(security), Some("hunter2".to_string()));
    assert_eq!(
        entries(&config),
        pairs(&[
            ("bootstrap.servers", "broker-1:9092,broker-2:9092"),
            ("security.protocol", "sasl_ssl"),
            ("ssl.ca.location", "/etc/ca.pem"),
            ("sasl.mechanism", "SCRAM-SHA-256"),
            ("sasl.username", "alice"),
            ("sasl.password", "hunter2"),
        ])
    );
}

#[test]
fn sasl_config_without_secret_has_no_password() {
    let security = SecurityConfig::SaslSsl {
        mechanism: SaslMechanism::Plain,
        username: "alice".to_string(),
        ca_location: None,
    };
    let config = KafkaInfrastructure::new().create_config(&cluster(security), None);
    assert_eq!(
        entries(&config),
        pairs(&[
            ("bootstrap.servers", "broker-1:9092,broker-2:9092"),
            ("security.protocol", "sasl_ssl"),
            ("sasl.mechanism", "PLAIN"),
            ("sasl.username", "alice"),
        ])
    );
}

#[test]
fn every_mechanism_has_its_wire_name() {
    let names = [
        (SaslMechanism::Plain, "PLAIN"),
        (SaslMechanism::ScramSha256, "SCRAM-SHA-256"),
        (SaslMechanism::ScramSha512, "SCRAM-SHA-512"),
        (SaslMechanism::Gssapi, "GSSAPI"),
        (SaslMechanism::OAuthBearer, "OAUTHBEARER"),
    ];
    for (mechanism, name) in names {
        assert_eq!(mechanism.wire_name(), name);
        assert_eq!(SaslMechanism::from_wire_name(&Some(name.to_string())), mechanism);
        let security = SecurityConfig::SaslSsl {
            mechanism,
            username: "u".to_string(),
            ca_location: None,
        };
        let config = KafkaInfrastructure::new().create_config(&cluster(security), None);
        assert_eq!(config.get("sasl.mechanism"), Some(name));
    }
}

#[test]
fn unknown_mechanism_name_stands_for_plain() {
    assert_eq!(SaslMechanism::from_wire_name(&None), SaslMechanism::Plain);
    assert_eq!(SaslMechanism::from_wire_name(&Some("scram-sha-256".to_string())), SaslMechanism::Plain);
    assert_eq!(SaslMechanism::from_wire_name(&Some(String::new())), SaslMechanism::Plain);
    assert_eq!(SaslMechanism::from_wire_name(&Some("PLAIN".to_string())), SaslMechanism::Plain);
}

#[test]
fn sampling_config_has_its_own_group_and_commits_nothing() {
    let config = KafkaInfrastructure::new().create_sampling_config(
        &cluster(SecurityConfig::Plaintext),
        None,
        0x0123456789abcdef0123456789abcdef,
    );
    assert_eq!(
        entries(&config),
        pairs(&[
            ("bootstrap.servers", "broker-1:9092,broker-2:9092"),
            ("security.protocol", "plaintext"),
            ("group.id", "kafkust-consumer-01234567-89ab-cdef-0123-456789abcdef"),
            ("auto.offset.reset", "latest"),
            ("enable.auto.commit", "false"),
        ])
    );
}

#[test]
fn fresh_sampling_configs_have_different_groups() {
    let infrastructure = KafkaInfrastructure::new();
    let profile = cluster(SecurityConfig::Plaintext);
    let first = infrastructure.create_fresh_sampling_config(&profile, None);
    let second = infrastructure.create_fresh_sampling_config(&profile, None);
    let first_group = first.get("group.id").unwrap().to_string();
    let second_group = second.get("group.id").unwrap().to_string();
    assert!(first_group.starts_with("kafkust-consumer-"));
    assert_eq!(first_group.len(), "kafkust-consumer-".len() + 36);
    assert_ne!(first_group, second_group);
    assert_eq!(first.get("enable.auto.commit"), Some("false"));
    assert_eq!(first.get("auto.offset.reset"), Some("latest"));
    assert_eq!(first.get("security.protocol"), Some("plaintext"));
}

#[test]
fn identifier_is_written_hyphenated_in_lower_case() {
    assert_eq!(
        id_text(0xa1a2a3a4b1b2c1c2d1d2d3d4d5d6d7d8),
        "a1a2a3a4-b1b2-c1c2-d1d2-d3d4d5d6d7d8"
    );
    assert_eq!(id_text(0), "00000000-0000-0000-0000-000000000000");
    assert_eq!(id_text(u128::MAX), "ffffffff-ffff-ffff-ffff-ffffffffffff");
}

#[test]
fn identifier_is_read_back_from_its_text() {
    for id in [0u128, 1, 0xa1a2a3a4b1b2c1c2d1d2d3d4d5d6d7d8, u128::MAX, fresh_id()] {
        assert_eq!(id_from_text(&id_text(id)), id);
    }
    assert_eq!(
        id_from_text("A1A2A3A4B1B2C1C2D1D2D3D4D5D6D7D8"),
        0xa1a2a3a4b1b2c1c2d1d2d3d4d5d6d7d8
    );
}

#[test]
fn text_that_is_no_identifier_stands_for_nil() {
    assert_eq!(id_from_text("not-a-uuid"), 0);
    assert_eq!(id_from_text(""), 0);
    assert_eq!(id_from_text("a1a2a3a4-b1b2-c1c2-d1d2-d3d4d5d6d7"), 0);
}

#[test]
fn fresh_identifiers_differ() {
    assert_ne!(fresh_id(), fresh_id());
}

#[test]
fn fresh_identifier_is_a_uuid_of_version_four() {
    for _ in 0..64 {
        let id = fresh_id();
        assert_eq!((id >> 76) & 0xf, 4);
        assert_eq!((id >> 62) & 0x3, 2);
        let text = id_text(id);
        assert_eq!(&text[14..15], "4");
        assert!(matches!(&text[19..20], "8" | "9" | "a" | "b"));
        assert_eq!(uuid::Uuid::from_u128(id).get_version_num(), 4);
    }
}

#[test]
fn group_is_named_after_its_token() {
    assert_eq!(group_id(0), "kafkust-consumer-00000000-0000-0000-0000-000000000000");
}
