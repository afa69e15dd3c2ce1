//! Failures, and the words in which they are reported.

use vstd::prelude::*;
use vstd::string::StringExecFns;

verus! {

/// `prefix` followed by `cause`.
fn prefixed(prefix: &str, cause: &String) -> (text: String)
    ensures
        text@ == prefix@ + cause@,
{
    let mut text = String::from_str(prefix);
    text.append(cause.as_str());
    text
}

/// A failed operation of the engine, the registry or the vault.
#[derive(Debug)]
pub enum EngineError {
    /// No client could be made from the connection parameters.
    ClientCreation { cause: String },
    /// The cluster's metadata could not be fetched.
    MetadataFetch { address: String, cause: String },
    /// The connectivity probe failed.
    ConnectionCheck { address: String, cause: String },
    /// The metadata of one topic could not be fetched.
    TopicMetadataFetch { cause: String },
    /// The metadata does not hold the topic.
    TopicNotFound,
    /// The watermarks of a partition could not be fetched.
    WatermarkFetch { cause: String },
    /// A start offset was refused.
    SetOffset { cause: String },
    /// The partitions could not be assigned.
    Assign { cause: String },
    /// The request to create a topic failed as a whole.
    TopicCreationRequest { cause: String },
    /// The cluster refused to create `topic`, with the status `code`.
    TopicCreation { topic: String, code: String },
    /// A record was rejected, or not acknowledged in time.
    Publish { cause: String },
    /// The registry holds no cluster with the identifier asked for.
    ClusterNotFound,
    /// The registry failed.
    Registry { cause: String },
    /// The vault gave no entry for the cluster.
    VaultEntry { cause: String },
    /// The vault did not store the secret.
    VaultSave { cause: String },
    /// The vault did not hand out the secret.
    VaultRead { cause: String },
    /// The vault did not delete the secret.
    VaultDelete { cause: String },
}

impl EngineError {
    /// The failure in words.
    pub open spec fn text(self) -> Seq<char> {
        match self {
            EngineError::ClientCreation { cause } => cause@,
            EngineError::MetadataFetch { address, cause } => "Failed to fetch metadata from "@
                + address@ + ": "@ + cause@,
            EngineError::ConnectionCheck { address, cause } => "Connection check failed for "@
                + address@ + ": "@ + cause@,
            EngineError::TopicMetadataFetch { cause } => "Failed to fetch topic metadata: "@
                + cause@,
            EngineError::TopicNotFound => "Topic not found"@,
            EngineError::WatermarkFetch { cause } => "Failed to fetch watermarks: "@ + cause@,
            EngineError::SetOffset { cause } => "Failed to set offset: "@ + cause@,
            EngineError::Assign { cause } => "Failed to assign partitions: "@ + cause@,
            EngineError::TopicCreationRequest { cause } => "Failed to create topic: "@ + cause@,
            EngineError::TopicCreation { topic, code } => "Failed to create topic '"@ + topic@
                + "': "@ + code@,
            EngineError::Publish { cause } => "Failed to publish message: "@ + cause@,
            EngineError::ClusterNotFound => "Cluster not found"@,
            EngineError::Registry { cause } => cause@,
            EngineError::VaultEntry { cause } => "Failed to create keyring entry: "@ + cause@,
            EngineError::VaultSave { cause } => "Failed to save password to keyring: "@ + cause@,
            EngineError::VaultRead { cause } => "Failed to retrieve password from keyring: "@
                + cause@,
            EngineError::VaultDelete { cause } => "Failed to delete password from keyring: "@
                + cause@,
        }
    }

    /// Writes the failure out in words.
    pub fn message(&self) -> (text: String)
        ensures
            text@ == self.text(),
    {
        match self {
            EngineError::ClientCreation { cause } => cause.clone(),
            EngineError::MetadataFetch { address, cause } => {
                let mut text = prefixed("Failed to fetch metadata from ", address);
                text.append(": ");
                text.append(cause.as_str());
                text
            },
            EngineError::ConnectionCheck { address, cause } => {
                let mut text = prefixed("Connection check failed for ", address);
                text.append(": ");
                text.append(cause.as_str());
                text
            },
            EngineError::TopicMetadataFetch { cause } => prefixed(
                "Failed to fetch topic metadata: ",
                cause,
            ),
            EngineError::TopicNotFound => String::from_str("Topic not found"),
            EngineError::WatermarkFetch { cause } => prefixed("Failed to fetch watermarks: ", cause),
            EngineError::SetOffset { cause } => prefixed("Failed to set offset: ", cause),
            EngineError::Assign { cause } => prefixed("Failed to assign partitions: ", cause),
            EngineError::TopicCreationRequest { cause } => prefixed(
                "Failed to create topic: ",
                cause,
            ),
            EngineError::TopicCreation { topic, code } => {
                let mut text = prefixed("Failed to create topic '", topic);
                text.append("': ");
                text.append(code.as_str());
                text
            },
            EngineError::Publish { cause } => prefixed("Failed to publish message: ", cause),
            EngineError::ClusterNotFound => String::from_str("Cluster not found"),
            EngineError::Registry { cause } => cause.clone(),
            EngineError::VaultEntry { cause } => prefixed("Failed to create keyring entry: ", cause),
            EngineError::VaultSave { cause } => prefixed(
                "Failed to save password to keyring: ",
                cause,
            ),
            EngineError::VaultRead { cause } => prefixed(
                "Failed to retrieve password from keyring: ",
                cause,
            ),
            EngineError::VaultDelete { cause } => prefixed(
                "Failed to delete password from keyring: ",
                cause,
            ),
        }
    }
}

/// What the command layer shows the operator: a failed broker operation, or
/// a failure inside the application, each with its message.
#[derive(Debug)]
pub enum Error {
    Kafka(String),
    Internal(String),
}

impl Error {
    /// The error as the operator reads it.
    pub open spec fn text(self) -> Seq<char> {
        match self {
            Error::Kafka(message) => "Kafka error: "@ + message@,
            Error::Internal(message) => "Internal error: "@ + message@,
        }
    }

    /// Writes the error out as the operator reads it.
    pub fn message(&self) -> (text: String)
        ensures
            text@ == self.text(),
    {
        match self {
            Error::Kafka(message) => prefixed("Kafka error: ", message),
            Error::Internal(message) => prefixed("Internal error: ", message),
        }
    }
}

/// The commands that the operator's front end can send.
#[derive(Debug, Clone, Copy, PartialEq, Eq, Structural)]
pub enum Command {
    ListClusters,
    ListTopics,
    AddCluster,
    UpdateCluster,
    CreateTopic,
    PublishMessage,
    DeleteCluster,
    TestConnection,
}

impl Command {
    /// Whether the command works on a broker. The others work on the
    /// registry and the vault.
    pub open spec fn is_broker_operation(self) -> bool {
        match self {
            Command::ListTopics
            | Command::CreateTopic
            | Command::PublishMessage
            | Command::TestConnection => true,
            Command::ListClusters
            | Command::AddCluster
            | Command::UpdateCluster
            | Command::DeleteCluster => false,
        }
    }

    /// What the operator reads when the command has failed with `failure`:
    /// a broker error for a command that works on a broker, whatever went
    /// wrong, and an internal error for the others.
    pub open spec fn reported_text(self, failure: EngineError) -> Seq<char> {
        if self.is_broker_operation() {
            "Kafka error: "@ + failure.text()
        } else {
            "Internal error: "@ + failure.text()
        }
    }

    /// Turns the failure of this command into what the operator is shown.
    pub fn report(&self, failure: &EngineError) -> (error: Error)
        ensures
            error.text() == self.reported_text(*failure),
            error is Kafka <==> self.is_broker_operation(),
    {
        let message = failure.message();
        match self {
            Command::ListTopics
            | Command::CreateTopic
            | Command::PublishMessage
            | Command::TestConnection => Error::Kafka(message),
            Command::ListClusters
            | Command::AddCluster
            | Command::UpdateCluster
            | Command::DeleteCluster => Error::Internal(message),
        }
    }
}

} // verus!
