//! Administrative operations: what is made of a cluster's metadata and of
//! the answer to a topic-creation request.

use vstd::prelude::*;
use crate::error::EngineError;
use crate::text::same_text;
use crate::topic::Topic;

verus! {

/// How long the listing of topics waits for the cluster's metadata, in seconds.
pub const METADATA_TIMEOUT_SECS: u64 = 5;

/// How long the connectivity probe waits for metadata, in seconds.
pub const CONNECTION_CHECK_TIMEOUT_SECS: u64 = 3;

/// How long the cluster may take to create a topic, in seconds.
pub const TOPIC_CREATION_TIMEOUT_SECS: u64 = 30;

/// How long the sending of one record may take, in seconds.
pub const SEND_TIMEOUT_SECS: u64 = 5;

/// How long the fetch of one partition's watermarks may take, in seconds.
pub const WATERMARK_TIMEOUT_SECS: u64 = 5;

/// The replication factor that every listed topic is given. The metadata
/// does not say what a topic's replication factor is.
pub const REPORTED_REPLICATION_FACTOR: i32 = 1;

/// What the cluster's metadata says of one topic.
#[derive(Debug, Clone)]
pub struct TopicMetadata {
    pub name: String,
    pub partition_count: usize,
}

/// Whether `topic` is what is listed for `metadata`: its name, the number of
/// its partitions, and the fixed replication factor.
pub open spec fn lists(topic: Topic, metadata: TopicMetadata) -> bool {
    &&& topic.name@ == metadata.name@
    &&& topic.partitions == metadata.partition_count as i32
    &&& topic.replication_factor == REPORTED_REPLICATION_FACTOR
}

/// Lists the topics of a cluster from its metadata, in the metadata's order.
pub fn summarize_topics(metadata: &Vec<TopicMetadata>) -> (topics: Vec<Topic>)
    ensures
        topics.len() == metadata.len(),
        forall|i: int| 0 <= i < metadata.len() ==> lists(#[trigger] topics[i], metadata[i]),
{
    let mut topics: Vec<Topic> = Vec::new();
    let mut i: usize = 0;
    while i < metadata.len()
        invariant
            i <= metadata.len(),
            topics.len() == i,
            forall|j: int| 0 <= j < i ==> lists(#[trigger] topics[j], metadata[j]),
        decreases metadata.len() - i,
    {
        let entry = &metadata[i];
        topics.push(
            Topic {
                name: entry.name.clone(),
                partitions: #[verifier::truncate]
                (entry.partition_count as i32),
                replication_factor: REPORTED_REPLICATION_FACTOR,
            },
        );
        i += 1;
    }
    topics
}

/// Whether the entry at `index` is the first one of `metadata` that is named
/// `topic`.
pub open spec fn is_first_named(metadata: Seq<TopicMetadata>, topic: Seq<char>, index: int) -> bool {
    &&& 0 <= index < metadata.len()
    &&& metadata[index].name@ == topic
    &&& forall|j: int| 0 <= j < index ==> (#[trigger] metadata[j]).name@ != topic
}

/// Looks up the number of partitions of `topic` in the metadata fetched for
/// it. A topic that the metadata does not hold is not found.
pub fn partition_count(metadata: &Vec<TopicMetadata>, topic: &str) -> (count: Result<
    i32,
    EngineError,
>)
    ensures
        match count {
            Ok(n) => exists|index: int|
                is_first_named(metadata@, topic@, index) && n == (
                #[trigger] metadata[index]).partition_count as i32,
            Err(error) => error is TopicNotFound && forall|j: int|
                0 <= j < metadata.len() ==> (#[trigger] metadata[j]).name@ != topic@,
        },
{
    let mut i: usize = 0;
    while i < metadata.len()
        invariant
            i <= metadata.len(),
            forall|j: int| 0 <= j < i ==> (#[trigger] metadata[j]).name@ != topic@,
        decreases metadata.len() - i,
    {
        if same_text(metadata[i].name.as_str(), topic) {
            assert(is_first_named(metadata@, topic@, i as int));
            return Ok(
                #[verifier::truncate]
                (metadata[i].partition_count as i32),
            );
        }
        i += 1;
    }
    Err(EngineError::TopicNotFound)
}

/// Whether the entry at `index` is the first refusal among `results`.
pub open spec fn is_first_refusal(
    results: Seq<Result<String, (String, String)>>,
    index: int,
) -> bool {
    &&& 0 <= index < results.len()
    &&& results[index] is Err
    &&& forall|j: int| 0 <= j < index ==> (#[trigger] results[j]) is Ok
}

/// Judges the answer to a topic-creation request. `results` holds, for each
/// topic asked for, its name where it was created, and else its name with
/// the status code of the refusal. One refusal fails the request, with the
/// name and code of the first refused topic.
pub fn creation_outcome(results: &Vec<Result<String, (String, String)>>) -> (outcome: Result<
    (),
    EngineError,
>)
    ensures
        match outcome {
            Ok(()) => forall|j: int| 0 <= j < results.len() ==> (#[trigger] results[j]) is Ok,
            Err(error) => exists|index: int|
                is_first_refusal(results@, index) && (error matches EngineError::TopicCreation {
                    topic,
                    code,
                } && topic@ == (#[trigger] results[index]).unwrap_err().0@ && code@
                    == results[index].unwrap_err().1@),
        },
{
    let mut i: usize = 0;
    while i < results.len()
        invariant
            i <= results.len(),
            forall|j: int| 0 <= j < i ==> (#[trigger] results[j]) is Ok,
        decreases results.len() - i,
    {
        match &results[i] {
            Ok(_) => {},
            Err(refusal) => {
                assert(is_first_refusal(results@, i as int));
                return Err(
                    EngineError::TopicCreation {
                        topic: refusal.0.clone(),
                        code: refusal.1.clone(),
                    },
                );
            },
        }
        i += 1;
    }
    Ok(())
}

} // verus!
