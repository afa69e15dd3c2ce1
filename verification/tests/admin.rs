use kafkust::admin::{
    creation_outcome, partition_count, summarize_topics, TopicMetadata,
    CONNECTION_CHECK_TIMEOUT_SECS, METADATA_TIMEOUT_SECS, REPORTED_REPLICATION_FACTOR,
    SEND_TIMEOUT_SECS, TOPIC_CREATION_TIMEOUT_SECS, WATERMARK_TIMEOUT_SECS,
};
use kafkust::error::EngineError;
use kafkust::topic::{Partition, Topic};

fn metadata(entries: &[(&str, usize)]) -> Vec<TopicMetadata> {
    entries
        .iter()
        .map(|&(name, partition_count)| TopicMetadata { name: name.to_string(), partition_count })
        .collect()
}

#[test]
fn timeouts_are_as_documented() {
    assert_eq!(METADATA_TIMEOUT_SECS, 5);
    assert_eq!(CONNECTION_CHECK_TIMEOUT_SECS, 3);
    assert_eq!(TOPIC_CREATION_TIMEOUT_SECS, 30);
    assert_eq!(SEND_TIMEOUT_SECS, 5);
    assert_eq!(WATERMARK_TIMEOUT_SECS, 5);
    assert_eq!(REPORTED_REPLICATION_FACTOR, 1);
}

#[test]
fn topics_are_listed_with_name_and_partition_count() {
    let topics: Vec<Topic> = summarize_topics(&metadata(&[("orders", 12), ("audit", 1), ("empty", 0)]));
    let listed: Vec<(&str, i32, i32)> =
        topics.iter().map(|t| (t.name.as_str(), t.partitions, t.replication_factor)).collect();
    assert_eq!(listed, vec![("orders", 12, 1), ("audit", 1, 1), ("empty", 0, 1)]);
    assert!(summarize_topics(&Vec::new()).is_empty());
}

#[test]
fn listed_replication_factor_is_always_one() {
    for topic in summarize_topics(&metadata(&[("a", 3), ("b", 300)])) {
        assert_eq!(topic.replication_factor, 1);
    }
}

#[test]
fn partition_count_is_that_of_the_named_topic() {
    let fetched = metadata(&[("orders", 12), ("audit", 3), ("orders", 5)]);
    assert_eq!(partition_count(&fetched, "audit").unwrap(), 3);
    assert_eq!(partition_count(&fetched, "orders").unwrap(), 12);
}

#[test]
fn missing_topic_is_not_found() {
    let fetched = metadata(&[("orders", 12)]);
    match partition_count(&fetched, "Orders") {
        Err(error) => {
            assert!(matches!(error, EngineError::TopicNotFound));
            assert_eq!(error.message(), "Topic not found");
        }
        Ok(count) => panic!("found {} partitions", count),
    }
    assert!(matches!(partition_count(&Vec::new(), "orders"), Err(EngineError::TopicNotFound)));
}

#[test]
fn creating_an_existing_topic_fails_with_its_name() {
    let results = vec![Err(("orders".to_string(), "TopicAlreadyExists".to_string()))];
    match creation_outcome(&results) {
        Err(EngineError::TopicCreation { topic, code }) => {
            assert_eq!(topic, "orders");
            assert_eq!(code, "TopicAlreadyExists");
        }
        other => panic!("another outcome: {:?}", other),
    }
    assert_eq!(
        creation_outcome(&results).unwrap_err().message(),
        "Failed to create topic 'orders': TopicAlreadyExists"
    );
}

#[test]
fn first_refused_topic_fails_the_request() {
    let results = vec![
        Ok("a".to_string()),
        Err(("b".to_string(), "InvalidReplicationFactor".to_string())),
        Ok("c".to_string()),
        Err(("d".to_string(), "TopicAlreadyExists".to_string())),
    ];
    match creation_outcome(&results) {
        Err(EngineError::TopicCreation { topic, code }) => {
            assert_eq!(topic, "b");
            assert_eq!(code, "InvalidReplicationFactor");
        }
        other => panic!("another outcome: {:?}", other),
    }
}

#[test]
fn created_topics_are_a_success() {
    assert!(creation_outcome(&vec![Ok("a".to_string()), Ok("b".to_string())]).is_ok());
    assert!(creation_outcome(&Vec::new()).is_ok());
}

#[test]
fn partition_holds_its_replicas() {
    let partition = Partition { id: 2, leader: 1, replicas: vec![1, 2, 3], isrs: vec![1, 3] };
    assert_eq!(partition.id, 2);
    assert_eq!(partition.leader, 1);
    assert_eq!(partition.replicas, vec![1, 2, 3]);
    assert_eq!(partition.isrs, vec![1, 3]);
}
