//! The vault: where the secrets of the clusters are kept, and under which
//! names.

use vstd::prelude::*;
use crate::ident::{hyphenated_text, id_text};

verus! {

/// The vault of one application: the service under whose name the host's
/// credential store keeps the application's secrets.
#[derive(Debug, Clone)]
pub struct KeyringSecretRepository {
    service_name: String,
}

impl KeyringSecretRepository {
    /// The name of the service.
    pub closed spec fn service(&self) -> Seq<char> {
        self.service_name@
    }

    /// The account under which the vault holds a cluster's secret: the text
    /// of the cluster's identifier.
    pub open spec fn account_text(cluster_id: u128) -> Seq<char> {
        hyphenated_text(cluster_id)
    }

    pub fn new(service_name: &str) -> (repository: Self)
        ensures
            repository.service() == service_name@,
    {
        KeyringSecretRepository { service_name: service_name.to_owned() }
    }

    pub fn service_name(&self) -> (name: &str)
        ensures
            name@ == self.service(),
    {
        self.service_name.as_str()
    }

    /// Names the account under which the secret of a cluster is kept.
    pub fn account(&self, cluster_id: u128) -> (name: String)
        ensures
            name@ == Self::account_text(cluster_id),
    {
        id_text(cluster_id)
    }
}

} // verus!
