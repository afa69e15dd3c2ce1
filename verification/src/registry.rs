//! The registry's rows: how a cluster profile is written to the registry,
//! and read back from it.

use vstd::prelude::*;
use vstd::string::StringExecFns;
use crate::cluster::{
    lemma_wire_name_round_trip,
    Cluster,
    ClusterView,
    SaslMechanism,
    SecurityConfig,
    SecurityView,
};
use crate::config::protocol_text;
use crate::ident::{hyphenated_text, id_from_text, id_of_text, id_text, parsed_text};
use crate::text::{same_text, text_of};

verus! {

/// One row of the registry. No column holds a secret.
#[derive(Debug, Clone)]
pub struct ClusterRow {
    pub id: String,
    pub name: String,
    pub brokers: String,
    pub security_type: String,
    pub sasl_mechanism: Option<String>,
    pub sasl_username: Option<String>,
    pub ca_location: Option<String>,
    pub cert_location: Option<String>,
    pub key_location: Option<String>,
}

/// A `ClusterRow` with its strings as sequences of characters.
pub struct RowView {
    pub id: Seq<char>,
    pub name: Seq<char>,
    pub brokers: Seq<char>,
    pub security_type: Seq<char>,
    pub sasl_mechanism: Option<Seq<char>>,
    pub sasl_username: Option<Seq<char>>,
    pub ca_location: Option<Seq<char>>,
    pub cert_location: Option<Seq<char>>,
    pub key_location: Option<Seq<char>>,
}

impl View for ClusterRow {
    type V = RowView;

    open spec fn view(&self) -> RowView {
        RowView {
            id: self.id@,
            name: self.name@,
            brokers: self.brokers@,
            security_type: self.security_type@,
            sasl_mechanism: text_of(self.sasl_mechanism),
            sasl_username: text_of(self.sasl_username),
            ca_location: text_of(self.ca_location),
            cert_location: text_of(self.cert_location),
            key_location: text_of(self.key_location),
        }
    }
}

/// The row that holds `cluster`. The security type is written as the
/// protocol's name. The passphrase of a key is a secret and is left out.
pub open spec fn row_of(cluster: ClusterView) -> RowView {
    let base = RowView {
        id: hyphenated_text(cluster.id),
        name: cluster.name,
        brokers: cluster.brokers,
        security_type: protocol_text(cluster.security),
        sasl_mechanism: None,
        sasl_username: None,
        ca_location: None,
        cert_location: None,
        key_location: None,
    };
    match cluster.security {
        SecurityView::Plaintext => base,
        SecurityView::Ssl { ca_location, certificate_location, key_location, key_password } => {
            RowView { ca_location, cert_location: certificate_location, key_location, ..base }
        },
        SecurityView::SaslSsl { mechanism, username, ca_location } => RowView {
            sasl_mechanism: Some(mechanism.wire_text()),
            sasl_username: Some(username),
            ca_location,
            ..base
        },
    }
}

/// The security mode that a row holds. A security type that is neither
/// `ssl` nor `sasl_ssl` stands for plaintext; a missing user name is empty.
pub open spec fn security_of(row: RowView) -> SecurityView {
    if row.security_type == "ssl"@ {
        SecurityView::Ssl {
            ca_location: row.ca_location,
            certificate_location: row.cert_location,
            key_location: row.key_location,
            key_password: None,
        }
    } else if row.security_type == "sasl_ssl"@ {
        SecurityView::SaslSsl {
            mechanism: SaslMechanism::from_wire_text(row.sasl_mechanism),
            username: match row.sasl_username {
                Some(name) => name,
                None => Seq::empty(),
            },
            ca_location: row.ca_location,
        }
    } else {
        SecurityView::Plaintext
    }
}

/// The cluster that a row holds.
pub open spec fn cluster_of(row: RowView) -> ClusterView {
    ClusterView {
        id: id_of_text(row.id),
        name: row.name,
        brokers: row.brokers,
        security: security_of(row),
    }
}

/// What the registry keeps of a cluster: all but the passphrase of a key.
pub open spec fn persisted(cluster: ClusterView) -> ClusterView {
    match cluster.security {
        SecurityView::Ssl { ca_location, certificate_location, key_location, key_password } => {
            ClusterView {
                security: SecurityView::Ssl {
                    ca_location,
                    certificate_location,
                    key_location,
                    key_password: None,
                },
                ..cluster
            }
        },
        _ => cluster,
    }
}

/// A cluster that is written to a row and read back comes out with every
/// field as it went in, but for the passphrase of a key, which the registry
/// does not keep. This holds of an identifier whose text is read back as
/// the identifier, as the text written for any identifier is.
pub proof fn lemma_row_round_trip(cluster: ClusterView)
    requires
        parsed_text(hyphenated_text(cluster.id)) == Some(cluster.id),
    ensures
        cluster_of(row_of(cluster)) == persisted(cluster),
        !(cluster.security matches SecurityView::Ssl { key_password: Some(_), .. }) ==> cluster_of(
            row_of(cluster),
        ) == cluster,
{
    reveal_strlit("plaintext");
    reveal_strlit("ssl");
    reveal_strlit("sasl_ssl");
    assert("plaintext"@.len() == 9);
    assert("ssl"@.len() == 3);
    assert("sasl_ssl"@.len() == 8);
    match cluster.security {
        SecurityView::SaslSsl { mechanism, .. } => {
            lemma_wire_name_round_trip(mechanism);
        },
        _ => {},
    }
}

fn copy_of(text: &Option<String>) -> (copy: Option<String>)
    ensures
        text_of(copy) == text_of(*text),
{
    match text {
        Some(present) => Some(present.clone()),
        None => None,
    }
}

/// Writes a cluster as a row of the registry. Reading the row back gives the
/// cluster again, without the passphrase of a key.
pub fn encode_row(cluster: &Cluster) -> (row: ClusterRow)
    ensures
        row@ == row_of(cluster@),
        cluster_of(row@) == persisted(cluster@),
{
    let id = id_text(cluster.id);
    proof {
        lemma_row_round_trip(cluster@);
    }
    match &cluster.security {
        SecurityConfig::Plaintext => ClusterRow {
            id,
            name: cluster.name.clone(),
            brokers: cluster.brokers.clone(),
            security_type: String::from_str("plaintext"),
            sasl_mechanism: None,
            sasl_username: None,
            ca_location: None,
            cert_location: None,
            key_location: None,
        },
        SecurityConfig::Ssl { ca_location, certificate_location, key_location, key_password: _ } => {
            ClusterRow {
                id,
                name: cluster.name.clone(),
                brokers: cluster.brokers.clone(),
                security_type: String::from_str("ssl"),
                sasl_mechanism: None,
                sasl_username: None,
                ca_location: copy_of(ca_location),
                cert_location: copy_of(certificate_location),
                key_location: copy_of(key_location),
            }
        },
        SecurityConfig::SaslSsl { mechanism, username, ca_location } => ClusterRow {
            id,
            name: cluster.name.clone(),
            brokers: cluster.brokers.clone(),
            security_type: String::from_str("sasl_ssl"),
            sasl_mechanism: Some(String::from_str(mechanism.wire_name())),
            sasl_username: Some(username.clone()),
            ca_location: copy_of(ca_location),
            cert_location: None,
            key_location: None,
        },
    }
}

/// Reads a cluster from a row of the registry.
pub fn decode_row(row: ClusterRow) -> (cluster: Cluster)
    ensures
        cluster@ == cluster_of(row@),
{
    let id: u128 = id_from_text(row.id.as_str());
    let security = if same_text(row.security_type.as_str(), "ssl") {
        SecurityConfig::Ssl {
            ca_location: row.ca_location,
            certificate_location: row.cert_location,
            key_location: row.key_location,
            key_password: None,
        }
    } else if same_text(row.security_type.as_str(), "sasl_ssl") {
        SecurityConfig::SaslSsl {
            mechanism: SaslMechanism::from_wire_name(&row.sasl_mechanism),
            username: match row.sasl_username {
                Some(name) => name,
                None => String::new(),
            },
            ca_location: row.ca_location,
        }
    } else {
        SecurityConfig::Plaintext
    };
    Cluster { id, name: row.name, brokers: row.brokers, security }
}

} // verus!
