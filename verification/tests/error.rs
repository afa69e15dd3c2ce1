use kafkust::error::{Command, EngineError, Error};

#[test]
fn engine_errors_are_worded_with_their_context() {
    let cause = || "broker down".to_string();
    let address = || "kafka:9092".to_string();
    let worded = [
        (EngineError::ClientCreation { cause: cause() }, "broker down"),
        (
            EngineError::MetadataFetch { address: address(), cause: cause() },
            "Failed to fetch metadata from kafka:9092: broker down",
        ),
        (
            EngineError::ConnectionCheck { address: address(), cause: cause() },
            "Connection check failed for kafka:9092: broker down",
        ),
        (
            EngineError::TopicMetadataFetch { cause: cause() },
            "Failed to fetch topic metadata: broker down",
        ),
        (EngineError::TopicNotFound, "Topic not found"),
        (EngineError::WatermarkFetch { cause: cause() }, "Failed to fetch watermarks: broker down"),
        (EngineError::SetOffset { cause: cause() }, "Failed to set offset: broker down"),
        (EngineError::Assign { cause: cause() }, "Failed to assign partitions: broker down"),
        (
            EngineError::TopicCreationRequest { cause: cause() },
            "Failed to create topic: broker down",
        ),
        (
            EngineError::TopicCreation { topic: "t".to_string(), code: "InvalidPartitions".to_string() },
            "Failed to create topic 't': InvalidPartitions",
        ),
        (EngineError::Publish { cause: cause() }, "Failed to publish message: broker down"),
        (EngineError::ClusterNotFound, "Cluster not found"),
        (EngineError::Registry { cause: cause() }, "broker down"),
        (EngineError::VaultEntry { cause: cause() }, "Failed to create keyring entry: broker down"),
        (
            EngineError::VaultSave { cause: cause() },
            "Failed to save password to keyring: broker down",
        ),
        (
            EngineError::VaultRead { cause: cause() },
            "Failed to retrieve password from keyring: broker down",
        ),
        (
            EngineError::VaultDelete { cause: cause() },
            "Failed to delete password from keyring: broker down",
        ),
    ];
    for (error, words) in worded {
        assert_eq!(error.message(), words);
    }
}

#[test]
fn errors_are_shown_with_their_kind() {
    assert_eq!(Error::Kafka("Topic not found".to_string()).message(), "Kafka error: Topic not found");
    assert_eq!(Error::Internal("disk full".to_string()).message(), "Internal error: disk full");
    assert_eq!(Error::Kafka(String::new()).message(), "Kafka error: ");
}

#[test]
fn broker_commands_report_broker_errors() {
    let broker = [
        Command::ListTopics,
        Command::CreateTopic,
        Command::PublishMessage,
        Command::TestConnection,
    ];
    for command in broker {
        match command.report(&EngineError::ClusterNotFound) {
            Error::Kafka(message) => assert_eq!(message, "Cluster not found"),
            other => panic!("another kind: {:?}", other),
        }
    }
    assert_eq!(
        Command::ListTopics.report(&EngineError::TopicNotFound).message(),
        "Kafka error: Topic not found"
    );
}

#[test]
fn registry_commands_report_internal_errors() {
    let registry = [
        Command::ListClusters,
        Command::AddCluster,
        Command::UpdateCluster,
        Command::DeleteCluster,
    ];
    for command in registry {
        match command.report(&EngineError::Registry { cause: "locked".to_string() }) {
            Error::Internal(message) => assert_eq!(message, "locked"),
            other => panic!("another kind: {:?}", other),
        }
    }
    assert_eq!(
        Command::AddCluster
            .report(&EngineError::VaultSave { cause: "denied".to_string() })
            .message(),
        "Internal error: Failed to save password to keyring: denied"
    );
}
