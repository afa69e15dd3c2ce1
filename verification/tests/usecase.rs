use kafkust::cluster::{Cluster, SecurityConfig};
use kafkust::error::EngineError;
use kafkust::text::{contains_nul, same_text};
use kafkust::usecase::{find_cluster, known_secret, secret_to_store, seed_cluster, ProfileChange};
use kafkust::vault::KeyringSecretRepository;

fn cluster(id: u128, name: &str) -> Cluster {
    Cluster {
        id,
        name: name.to_string(),
        brokers: "localhost:9092".to_string(),
        security: SecurityConfig::Plaintext,
    }
}

#[test]
fn cluster_is_found_by_its_identifier() {
    let clusters = vec![cluster(1, "one"), cluster(2, "two"), cluster(3, "three"), cluster(2, "again")];
    let found = find_cluster(clusters, 2).unwrap();
    assert_eq!(found.id, 2);
    assert_eq!(found.name, "two");
}

#[test]
fn unknown_identifier_is_not_found() {
    match find_cluster(vec![cluster(1, "one")], 7) {
        Err(error) => {
            assert!(matches!(error, EngineError::ClusterNotFound));
            assert_eq!(error.message(), "Cluster not found");
        }
        Ok(found) => panic!("found {:?}", found),
    }
    assert!(find_cluster(Vec::new(), 0).is_err());
}

#[test]
fn new_profile_stores_any_password() {
    assert_eq!(
        secret_to_store(Some("hunter2".to_string()), ProfileChange::Added),
        Some("hunter2".to_string())
    );
    assert_eq!(secret_to_store(Some(String::new()), ProfileChange::Added), Some(String::new()));
    assert_eq!(secret_to_store(None, ProfileChange::Added), None);
}

#[test]
fn update_stores_only_a_password_that_is_not_empty() {
    assert_eq!(
        secret_to_store(Some("hunter2".to_string()), ProfileChange::Updated),
        Some("hunter2".to_string())
    );
    assert_eq!(secret_to_store(Some(String::new()), ProfileChange::Updated), None);
    assert_eq!(secret_to_store(None, ProfileChange::Updated), None);
}

#[test]
fn failing_vault_counts_as_no_secret() {
    assert_eq!(known_secret(Ok("hunter2".to_string())), Some("hunter2".to_string()));
    assert_eq!(known_secret(Err(EngineError::VaultRead { cause: "locked".to_string() })), None);
    assert_eq!(known_secret(Err(EngineError::VaultEntry { cause: "none".to_string() })), None);
}

#[test]
fn empty_registry_is_seeded_with_the_local_cluster() {
    let seed = seed_cluster(&Vec::new(), 42).unwrap();
    assert_eq!(seed.id, 42);
    assert_eq!(seed.name, "Local Kafka");
    assert_eq!(seed.brokers, "localhost:9092");
    assert!(matches!(seed.security, SecurityConfig::Plaintext));
}

#[test]
fn registry_with_a_cluster_is_not_seeded() {
    assert!(seed_cluster(&vec![cluster(1, "one")], 42).is_none());
}

#[test]
fn vault_keeps_its_service_name() {
    let vault = KeyringSecretRepository::new("kafkust");
    assert_eq!(vault.service_name(), "kafkust");
    assert_eq!(KeyringSecretRepository::new("").service_name(), "");
}

#[test]
fn vault_account_is_the_text_of_the_identifier() {
    let vault = KeyringSecretRepository::new("kafkust");
    assert_eq!(
        vault.account(0x550e8400e29b41d4a716446655440000),
        "550e8400-e29b-41d4-a716-446655440000"
    );
}

#[test]
fn texts_are_compared_by_their_characters() {
    assert!(same_text("ssl", "ssl"));
    assert!(!same_text("ssl", "SSL"));
    assert!(!same_text("ssl", "ssl "));
    assert!(same_text("", ""));
}

#[test]
fn nul_is_found_wherever_it_stands() {
    assert!(!contains_nul("orders"));
    assert!(!contains_nul(""));
    assert!(contains_nul("\0"));
    assert!(contains_nul("ord\0ers"));
    assert!(contains_nul("orders\0"));
}
