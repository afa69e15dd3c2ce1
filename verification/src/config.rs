//! Connection parameters: from a cluster profile and its secret to the
//! configuration of a broker client.

use vstd::prelude::*;
use rdkafka::config::ClientConfig;
use crate::cluster::{Cluster, ClusterView, SecurityConfig, SecurityView};
use crate::ident::{fresh_id, group_id, group_name};
use crate::text::text_of;

verus! {

/// `rdkafka::config::ClientConfig`, the configuration that a broker client
/// is made from. Nothing inside it is visible here.
#[verifier::external_type_specification]
#[verifier::external_body]
pub struct ExClientConfig(rdkafka::config::ClientConfig);

/// The parameters that a client configuration holds, by key: what
/// `ClientConfig::get` finds.
pub uninterp spec fn config_entries(config: ClientConfig) -> Map<Seq<char>, Seq<char>>;

/// No parameters.
pub open spec fn no_params() -> Map<Seq<char>, Seq<char>> {
    Map::empty()
}

/// `ClientConfig::new`: a configuration that holds no parameter.
pub assume_specification[ ClientConfig::new ]() -> (config: ClientConfig)
    ensures
        config_entries(config) == no_params(),
;

/// `ClientConfig::set`: the configuration holds `value` under `key`, in place
/// of what it held under that key, and everything else as before.
#[verifier::external_body]
fn set_param(config: &mut ClientConfig, key: &str, value: &str)
    ensures
        config_entries(*final(config)) == config_entries(*old(config)).insert(key@, value@),
{
    config.set(key, value);
}

/// `params`, with `value` under `key` where there is a value.
pub open spec fn with_optional(
    params: Map<Seq<char>, Seq<char>>,
    key: Seq<char>,
    value: Option<Seq<char>>,
) -> Map<Seq<char>, Seq<char>> {
    match value {
        Some(text) => params.insert(key, text),
        None => params,
    }
}

/// The protocol that a security mode asks of the client.
pub open spec fn protocol_text(security: SecurityView) -> Seq<char> {
    match security {
        SecurityView::Plaintext => "plaintext"@,
        SecurityView::Ssl { .. } => "ssl"@,
        SecurityView::SaslSsl { .. } => "sasl_ssl"@,
    }
}

/// Where the value of a connection parameter comes from: for each key that a
/// connection to `cluster` may set, the field that it is read from. A field
/// that the profile leaves empty gives no value, and so does any other key.
pub open spec fn param_source(
    cluster: ClusterView,
    password: Option<Seq<char>>,
    key: Seq<char>,
) -> Option<Seq<char>> {
    if key == "bootstrap.servers"@ {
        Some(cluster.brokers)
    } else if key == "security.protocol"@ {
        Some(protocol_text(cluster.security))
    } else {
        match cluster.security {
            SecurityView::Plaintext => None,
            SecurityView::Ssl {
                ca_location,
                certificate_location,
                key_location,
                key_password,
            } => {
                if key == "ssl.ca.location"@ {
                    ca_location
                } else if key == "ssl.certificate.location"@ {
                    certificate_location
                } else if key == "ssl.key.location"@ {
                    key_location
                } else if key == "ssl.key.password"@ {
                    key_password
                } else {
                    None
                }
            },
            SecurityView::SaslSsl { mechanism, username, ca_location } => {
                if key == "sasl.mechanism"@ {
                    Some(mechanism.wire_text())
                } else if key == "sasl.username"@ {
                    Some(username)
                } else if key == "sasl.password"@ {
                    password
                } else if key == "ssl.ca.location"@ {
                    ca_location
                } else {
                    None
                }
            },
        }
    }
}

/// The parameters of a connection to `cluster`, with `password` as its
/// secret: each key that has a source, with the value from there.
pub open spec fn connection_params(cluster: ClusterView, password: Option<Seq<char>>) -> Map<
    Seq<char>,
    Seq<char>,
> {
    Map::new(
        |key: Seq<char>| param_source(cluster, password, key) is Some,
        |key: Seq<char>| param_source(cluster, password, key).unwrap(),
    )
}

/// The parameters of the consumer of one sampling read: those of the
/// connection, a consumer group of its own, and no committing of offsets.
pub open spec fn sampling_params(
    cluster: ClusterView,
    password: Option<Seq<char>>,
    group: Seq<char>,
) -> Map<Seq<char>, Seq<char>> {
    connection_params(cluster, password).insert("group.id"@, group).insert(
        "auto.offset.reset"@,
        "latest"@,
    ).insert("enable.auto.commit"@, "false"@)
}

/// The keys of the connection parameters are nine different strings.
proof fn lemma_keys_differ()
    ensures
        "bootstrap.servers"@.len() == 17,
        "security.protocol"@.len() == 17,
        "ssl.ca.location"@.len() == 15,
        "ssl.certificate.location"@.len() == 24,
        "ssl.key.location"@.len() == 16,
        "ssl.key.password"@.len() == 16,
        "sasl.mechanism"@.len() == 14,
        "sasl.username"@.len() == 13,
        "sasl.password"@.len() == 13,
        "bootstrap.servers"@[0] != "security.protocol"@[0],
        "ssl.key.location"@[8] != "ssl.key.password"@[8],
        "sasl.username"@[5] != "sasl.password"@[5],
{
    reveal_strlit("bootstrap.servers");
    reveal_strlit("security.protocol");
    reveal_strlit("ssl.ca.location");
    reveal_strlit("ssl.certificate.location");
    reveal_strlit("ssl.key.location");
    reveal_strlit("ssl.key.password");
    reveal_strlit("sasl.mechanism");
    reveal_strlit("sasl.username");
    reveal_strlit("sasl.password");
}

/// Whether `params` holds `value` under `key`: the value where there is one,
/// and no such key where there is none.
pub open spec fn holds_param(
    params: Map<Seq<char>, Seq<char>>,
    key: Seq<char>,
    value: Option<Seq<char>>,
) -> bool {
    match value {
        Some(text) => params.contains_key(key) && params[key] == text,
        None => !params.contains_key(key),
    }
}

/// Whether `key` is one of the nine keys that connection parameters can have.
pub open spec fn is_connection_key(key: Seq<char>) -> bool {
    ||| key == "bootstrap.servers"@
    ||| key == "security.protocol"@
    ||| key == "ssl.ca.location"@
    ||| key == "ssl.certificate.location"@
    ||| key == "ssl.key.location"@
    ||| key == "ssl.key.password"@
    ||| key == "sasl.mechanism"@
    ||| key == "sasl.username"@
    ||| key == "sasl.password"@
}

/// The connection parameters hold the broker list and the protocol of the
/// profile's security mode. Each further key is there exactly when the mode
/// has a field for it and the profile, or the secret, fills that field, and
/// then with the field's value. No other key is there.
pub proof fn lemma_params_follow_profile(cluster: ClusterView, password: Option<Seq<char>>)
    ensures
        holds_param(
            connection_params(cluster, password),
            "bootstrap.servers"@,
            Some(cluster.brokers),
        ),
        holds_param(
            connection_params(cluster, password),
            "security.protocol"@,
            Some(protocol_text(cluster.security)),
        ),
        holds_param(
            connection_params(cluster, password),
            "ssl.ca.location"@,
            match cluster.security {
                SecurityView::Ssl { ca_location, .. } => ca_location,
                SecurityView::SaslSsl { ca_location, .. } => ca_location,
                SecurityView::Plaintext => None,
            },
        ),
        holds_param(
            connection_params(cluster, password),
            "ssl.certificate.location"@,
            match cluster.security {
                SecurityView::Ssl { certificate_location, .. } => certificate_location,
                _ => None,
            },
        ),
        holds_param(
            connection_params(cluster, password),
            "ssl.key.location"@,
            match cluster.security {
                SecurityView::Ssl { key_location, .. } => key_location,
                _ => None,
            },
        ),
        holds_param(
            connection_params(cluster, password),
            "ssl.key.password"@,
            match cluster.security {
                SecurityView::Ssl { key_password, .. } => key_password,
                _ => None,
            },
        ),
        holds_param(
            connection_params(cluster, password),
            "sasl.mechanism"@,
            match cluster.security {
                SecurityView::SaslSsl { mechanism, .. } => Some(mechanism.wire_text()),
                _ => None,
            },
        ),
        holds_param(
            connection_params(cluster, password),
            "sasl.username"@,
            match cluster.security {
                SecurityView::SaslSsl { username, .. } => Some(username),
                _ => None,
            },
        ),
        holds_param(
            connection_params(cluster, password),
            "sasl.password"@,
            if cluster.security is SaslSsl {
                password
            } else {
                None
            },
        ),
        forall|key: Seq<char>| #[trigger]
            connection_params(cluster, password).contains_key(key) ==> is_connection_key(key),
{
    lemma_keys_differ();
}

/// The parameters of a sampling read hold the name of its consumer group,
/// start at the newest record where no offset is given, and switch the
/// committing of offsets off. What the connection parameters hold stays as
/// it is, and nothing else is added.
pub proof fn lemma_sampling_params_commit_nothing(
    cluster: ClusterView,
    password: Option<Seq<char>>,
    group: Seq<char>,
)
    ensures
        holds_param(sampling_params(cluster, password, group), "group.id"@, Some(group)),
        holds_param(
            sampling_params(cluster, password, group),
            "auto.offset.reset"@,
            Some("latest"@),
        ),
        holds_param(
            sampling_params(cluster, password, group),
            "enable.auto.commit"@,
            Some("false"@),
        ),
        forall|key: Seq<char>|
            is_connection_key(key) ==> holds_param(
                sampling_params(cluster, password, group),
                key,
                #[trigger] param_source(cluster, password, key),
            ),
        forall|key: Seq<char>| #[trigger]
            sampling_params(cluster, password, group).contains_key(key) ==> is_connection_key(key)
                || key == "group.id"@ || key == "auto.offset.reset"@ || key
                == "enable.auto.commit"@,
{
    lemma_keys_differ();
    lemma_params_follow_profile(cluster, password);
    reveal_strlit("group.id");
    reveal_strlit("auto.offset.reset");
    reveal_strlit("enable.auto.commit");
    assert("group.id"@.len() == 8);
    assert("auto.offset.reset"@.len() == 17);
    assert("enable.auto.commit"@.len() == 18);
    assert("auto.offset.reset"@[0] == 'a');
    reveal_strlit("bootstrap.servers");
    reveal_strlit("security.protocol");
}

/// Sets `key` where there is a value for it.
fn set_optional(config: &mut ClientConfig, key: &str, value: &Option<String>)
    ensures
        config_entries(*final(config)) == with_optional(
            config_entries(*old(config)),
            key@,
            text_of(*value),
        ),
{
    match value {
        Some(text) => set_param(config, key, text.as_str()),
        None => {},
    }
}

/// The broker-facing part of the cluster manager.
pub struct KafkaInfrastructure;

impl KafkaInfrastructure {
    pub fn new() -> (infrastructure: Self) {
        KafkaInfrastructure
    }

    /// Builds the client configuration for a connection to `cluster`.
    pub fn create_config(&self, cluster: &Cluster, password: Option<String>) -> (config:
        ClientConfig)
        ensures
            config_entries(config) == connection_params(cluster@, text_of(password)),
    {
        let mut config = ClientConfig::new();
        proof {
            lemma_keys_differ();
        }
        set_param(&mut config, "bootstrap.servers", cluster.brokers.as_str());
        match &cluster.security {
            SecurityConfig::Plaintext => {
                set_param(&mut config, "security.protocol", "plaintext");
            },
            SecurityConfig::Ssl {
                ca_location,
                certificate_location,
                key_location,
                key_password,
            } => {
                set_param(&mut config, "security.protocol", "ssl");
                set_optional(&mut config, "ssl.ca.location", ca_location);
                set_optional(&mut config, "ssl.certificate.location", certificate_location);
                set_optional(&mut config, "ssl.key.location", key_location);
                set_optional(&mut config, "ssl.key.password", key_password);
            },
            SecurityConfig::SaslSsl { mechanism, username, ca_location } => {
                set_param(&mut config, "security.protocol", "sasl_ssl");
                set_param(&mut config, "sasl.mechanism", mechanism.wire_name());
                set_param(&mut config, "sasl.username", username.as_str());
                set_optional(&mut config, "sasl.password", &password);
                set_optional(&mut config, "ssl.ca.location", ca_location);
            },
        }
        assert(config_entries(config) =~= connection_params(cluster@, text_of(password)));
        config
    }

    /// Builds the configuration of the consumer of one sampling read, whose
    /// consumer group is named after `token`.
    pub fn create_sampling_config(
        &self,
        cluster: &Cluster,
        password: Option<String>,
        token: u128,
    ) -> (config: ClientConfig)
        ensures
            config_entries(config) == sampling_params(
                cluster@,
                text_of(password),
                group_name(token),
            ),
    {
        let mut config = self.create_config(cluster, password);
        let group = group_id(token);
        set_param(&mut config, "group.id", group.as_str());
        set_param(&mut config, "auto.offset.reset", "latest");
        set_param(&mut config, "enable.auto.commit", "false");
        config
    }

    /// Builds the configuration of the consumer of one sampling read, with a
    /// consumer group that no other read has: its name is drawn at random.
    pub fn create_fresh_sampling_config(&self, cluster: &Cluster, password: Option<String>) -> (config:
        ClientConfig)
        ensures
            exists|token: u128|
                config_entries(config) == sampling_params(
                    cluster@,
                    text_of(password),
                    #[trigger] group_name(token),
                ),
    {
        let token: u128 = fresh_id();
        self.create_sampling_config(cluster, password, token)
    }
}

} // verus!
