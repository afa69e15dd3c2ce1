//! Cluster profiles and the ways of securing a connection.

use vstd::prelude::*;
use crate::text::{same_text, text_of};

verus! {

/// The SASL mechanisms that a cluster can ask for.
#[derive(Debug, Clone, Copy, PartialEq, Eq, Structural)]
pub enum SaslMechanism {
    Plain,
    ScramSha256,
    ScramSha512,
    Gssapi,
    OAuthBearer,
}

impl SaslMechanism {
    /// The mechanism's name as brokers and the registry write it.
    pub open spec fn wire_text(self) -> Seq<char> {
        match self {
            SaslMechanism::Plain => "PLAIN"@,
            SaslMechanism::ScramSha256 => "SCRAM-SHA-256"@,
            SaslMechanism::ScramSha512 => "SCRAM-SHA-512"@,
            SaslMechanism::Gssapi => "GSSAPI"@,
            SaslMechanism::OAuthBearer => "OAUTHBEARER"@,
        }
    }

    /// The mechanism that a stored name stands for. A missing or unknown
    /// name stands for `Plain`.
    pub open spec fn from_wire_text(name: Option<Seq<char>>) -> SaslMechanism {
        if name == Some("SCRAM-SHA-256"@) {
            SaslMechanism::ScramSha256
        } else if name == Some("SCRAM-SHA-512"@) {
            SaslMechanism::ScramSha512
        } else if name == Some("GSSAPI"@) {
            SaslMechanism::Gssapi
        } else if name == Some("OAUTHBEARER"@) {
            SaslMechanism::OAuthBearer
        } else {
            SaslMechanism::Plain
        }
    }

    pub fn wire_name(&self) -> (name: &'static str)
        ensures
            name@ == self.wire_text(),
    {
        match self {
            SaslMechanism::Plain => "PLAIN",
            SaslMechanism::ScramSha256 => "SCRAM-SHA-256",
            SaslMechanism::ScramSha512 => "SCRAM-SHA-512",
            SaslMechanism::Gssapi => "GSSAPI",
            SaslMechanism::OAuthBearer => "OAUTHBEARER",
        }
    }

    pub fn from_wire_name(name: &Option<String>) -> (mechanism: SaslMechanism)
        ensures
            mechanism == SaslMechanism::from_wire_text(text_of(*name)),
    {
        match name {
            None => SaslMechanism::Plain,
            Some(text) => {
                if same_text(text.as_str(), "SCRAM-SHA-256") {
                    SaslMechanism::ScramSha256
                } else if same_text(text.as_str(), "SCRAM-SHA-512") {
                    SaslMechanism::ScramSha512
                } else if same_text(text.as_str(), "GSSAPI") {
                    SaslMechanism::Gssapi
                } else if same_text(text.as_str(), "OAUTHBEARER") {
                    SaslMechanism::OAuthBearer
                } else {
                    SaslMechanism::Plain
                }
            },
        }
    }
}

/// Every mechanism is read back from its own name.
pub proof fn lemma_wire_name_round_trip(mechanism: SaslMechanism)
    ensures
        SaslMechanism::from_wire_text(Some(mechanism.wire_text())) == mechanism,
{
    reveal_strlit("PLAIN");
    reveal_strlit("SCRAM-SHA-256");
    reveal_strlit("SCRAM-SHA-512");
    reveal_strlit("GSSAPI");
    reveal_strlit("OAUTHBEARER");
    assert("PLAIN"@.len() == 5);
    assert("SCRAM-SHA-256"@.len() == 13);
    assert("SCRAM-SHA-512"@.len() == 13);
    assert("GSSAPI"@.len() == 6);
    assert("OAUTHBEARER"@.len() == 11);
    assert("SCRAM-SHA-256"@[12] != "SCRAM-SHA-512"@[12]);
}

/// How a connection to a cluster is secured. A password is no part of it:
/// the vault holds it.
#[derive(Debug, Clone)]
pub enum SecurityConfig {
    Plaintext,
    Ssl {
        ca_location: Option<String>,
        certificate_location: Option<String>,
        key_location: Option<String>,
        key_password: Option<String>,
    },
    SaslSsl { mechanism: SaslMechanism, username: String, ca_location: Option<String> },
}

/// A `SecurityConfig` with its strings as sequences of characters.
pub enum SecurityView {
    Plaintext,
    Ssl {
        ca_location: Option<Seq<char>>,
        certificate_location: Option<Seq<char>>,
        key_location: Option<Seq<char>>,
        key_password: Option<Seq<char>>,
    },
    SaslSsl { mechanism: SaslMechanism, username: Seq<char>, ca_location: Option<Seq<char>> },
}

impl View for SecurityConfig {
    type V = SecurityView;

    open spec fn view(&self) -> SecurityView {
        match *self {
            SecurityConfig::Plaintext => SecurityView::Plaintext,
            SecurityConfig::Ssl {
                ca_location,
                certificate_location,
                key_location,
                key_password,
            } => SecurityView::Ssl {
                ca_location: text_of(ca_location),
                certificate_location: text_of(certificate_location),
                key_location: text_of(key_location),
                key_password: text_of(key_password),
            },
            SecurityConfig::SaslSsl { mechanism, username, ca_location } => SecurityView::SaslSsl {
                mechanism,
                username: username@,
                ca_location: text_of(ca_location),
            },
        }
    }
}

/// A cluster profile: how to reach one cluster.
#[derive(Debug, Clone)]
pub struct Cluster {
    /// The profile's identifier, a UUID as a 128-bit number.
    pub id: u128,
    pub name: String,
    /// The broker addresses, joined by commas.
    pub brokers: String,
    pub security: SecurityConfig,
}

/// A `Cluster` with its strings as sequences of characters.
pub struct ClusterView {
    pub id: u128,
    pub name: Seq<char>,
    pub brokers: Seq<char>,
    pub security: SecurityView,
}

impl View for Cluster {
    type V = ClusterView;

    open spec fn view(&self) -> ClusterView {
        ClusterView {
            id: self.id,
            name: self.name@,
            brokers: self.brokers@,
            security: self.security@,
        }
    }
}

} // verus!
