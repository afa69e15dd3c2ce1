//! The rules of the cluster manager that stand between a command and the
//! registry, the vault and the broker.

use vstd::prelude::*;
use vstd::string::StringExecFns;
use crate::cluster::{Cluster, ClusterView, SecurityConfig, SecurityView};
use crate::error::EngineError;
use crate::text::text_of;

verus! {

/// How a profile comes to the registry.
#[derive(Debug, Clone, Copy, PartialEq, Eq, Structural)]
pub enum ProfileChange {
    Added,
    Updated,
}

/// Whether the vault is given `password` when a profile is saved. A new
/// profile stores whatever password comes with it. An update stores a
/// password that is not empty, and else leaves the stored one alone.
pub open spec fn stores_secret(password: Option<Seq<char>>, change: ProfileChange) -> bool {
    match password {
        Some(text) => change == ProfileChange::Added || text.len() > 0,
        None => false,
    }
}

/// Picks what goes to the vault when a profile is saved: the password, or
/// nothing.
pub fn secret_to_store(password: Option<String>, change: ProfileChange) -> (secret: Option<String>)
    ensures
        secret == if stores_secret(text_of(password), change) {
            password
        } else {
            None
        },
{
    match password {
        Some(text) => {
            match change {
                ProfileChange::Added => Some(text),
                ProfileChange::Updated => {
                    if text.as_str().is_empty() {
                        None
                    } else {
                        Some(text)
                    }
                },
            }
        },
        None => None,
    }
}

/// The secret that a broker operation goes on with, from what the vault
/// answered: a vault that fails counts as a vault that holds nothing.
pub fn known_secret(answer: Result<String, EngineError>) -> (secret: Option<String>)
    ensures
        secret == match answer {
            Ok(password) => Some(password),
            Err(_) => None,
        },
{
    match answer {
        Ok(password) => Some(password),
        Err(_) => None,
    }
}

/// Whether the cluster at `index` is the first one of `clusters` with the
/// identifier `id`.
pub open spec fn is_first_with_id(clusters: Seq<Cluster>, id: u128, index: int) -> bool {
    &&& 0 <= index < clusters.len()
    &&& clusters[index].id == id
    &&& forall|j: int| 0 <= j < index ==> (#[trigger] clusters[j]).id != id
}

/// Picks the cluster with the identifier `id` from the registry's list: the
/// first, should there be several.
pub fn find_cluster(clusters: Vec<Cluster>, id: u128) -> (found: Result<Cluster, EngineError>)
    ensures
        match found {
            Ok(cluster) => exists|index: int|
                is_first_with_id(clusters@, id, index) && cluster == #[trigger] clusters[index],
            Err(error) => error is ClusterNotFound && forall|j: int|
                0 <= j < clusters.len() ==> (#[trigger] clusters[j]).id != id,
        },
{
    let mut rest = clusters;
    let mut i: usize = 0;
    while i < rest.len()
        invariant
            rest@ == clusters@,
            i <= rest.len(),
            forall|j: int| 0 <= j < i ==> (#[trigger] clusters[j]).id != id,
        decreases rest.len() - i,
    {
        if rest[i].id == id {
            let cluster = rest.remove(i);
            assert(is_first_with_id(clusters@, id, i as int) && cluster == clusters[i as int]);
            return Ok(cluster);
        }
        i += 1;
    }
    Err(EngineError::ClusterNotFound)
}

/// The profile of a broker on this machine, without security.
pub open spec fn local_profile(id: u128) -> ClusterView {
    ClusterView {
        id,
        name: "Local Kafka"@,
        brokers: "localhost:9092"@,
        security: SecurityView::Plaintext,
    }
}

/// The profile that an empty registry is seeded with, under the identifier
/// `id`. A registry that holds a profile is not seeded.
pub fn seed_cluster(existing: &Vec<Cluster>, id: u128) -> (seed: Option<Cluster>)
    ensures
        existing.len() > 0 ==> seed is None,
        existing.len() == 0 ==> seed is Some && seed.unwrap()@ == local_profile(id),
{
    if existing.len() == 0 {
        Some(
            Cluster {
                id,
                name: String::from_str("Local Kafka"),
                brokers: String::from_str("localhost:9092"),
                security: SecurityConfig::Plaintext,
            },
        )
    } else {
        None
    }
}

} // verus!
