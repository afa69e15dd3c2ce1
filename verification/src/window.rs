//! Offset windows: where a sampling read starts in each partition.

use vstd::prelude::*;
use rdkafka::error::KafkaError;
use rdkafka::topic_partition_list::TopicPartitionList;
use crate::error::EngineError;
use crate::topic::WatermarkPair;

verus! {

/// `rdkafka::topic_partition_list::TopicPartitionList`, the list by which a
/// consumer is assigned partitions. Nothing inside it is visible here.
#[verifier::external_type_specification]
#[verifier::external_body]
pub struct ExTopicPartitionList(rdkafka::topic_partition_list::TopicPartitionList);

/// `rdkafka::error::KafkaError`, the error of a call into the broker client.
/// Nothing inside it is visible here.
#[verifier::external_type_specification]
#[verifier::external_body]
pub struct ExKafkaError(rdkafka::error::KafkaError);

/// What a topic partition list holds, in the order of its entries
/// (`TopicPartitionList::elements`): for each entry the topic, the partition
/// and the offset.
pub uninterp spec fn assigned(list: TopicPartitionList) -> Seq<(Seq<char>, i32, i64)>;

/// No entries.
pub open spec fn no_entries() -> Seq<(Seq<char>, i32, i64)> {
    Seq::empty()
}

/// Whether `entries` has an entry for `partition` of `topic`.
pub open spec fn holds_partition(
    entries: Seq<(Seq<char>, i32, i64)>,
    topic: Seq<char>,
    partition: i32,
) -> bool {
    exists|i: int|
        0 <= i < entries.len() && (#[trigger] entries[i]).0 == topic && entries[i].1 == partition
}

/// `TopicPartitionList::new`: a list without entries.
pub assume_specification[ TopicPartitionList::new ]() -> (list: TopicPartitionList)
    ensures
        assigned(list) == no_entries(),
;

/// `TopicPartitionList::add_partition_offset`, with `Offset::Offset(offset)`
/// as the offset. The call panics on a topic that holds the NUL character.
/// It succeeds exactly when the offset is not negative. Where it succeeds on
/// a list that had no entry for this partition of the topic, the list has
/// gained one entry, at its end, with the offset given. (With such an entry
/// before, the offset goes to the first of them; nothing is claimed then.)
#[verifier::external_body]
fn add_start(list: &mut TopicPartitionList, topic: &str, partition: i32, offset: i64) -> (added:
    Result<(), KafkaError>)
    requires
        !topic@.contains('\0'),
    ensures
        added is Ok <==> offset >= 0,
        added is Ok && !holds_partition(assigned(*old(list)), topic@, partition) ==> assigned(
            *final(list),
        ) == assigned(*old(list)).push((topic@, partition, offset)),
{
    list.add_partition_offset(topic, partition, rdkafka::Offset::Offset(offset))
}

/// `KafkaError`'s `Display`: the error in words. Nothing is claimed of the
/// words.
#[verifier::external_body]
fn error_text(error: &KafkaError) -> String {
    error.to_string()
}

/// The share of a sampling budget that falls to one partition: the budget
/// divided evenly, the remainder dropped.
pub open spec fn per_partition_budget(max_messages: int, partition_count: int) -> int
    recommends
        partition_count > 0,
{
    max_messages / partition_count
}

/// The offset at which a sampling read of one partition starts: the high
/// watermark less the partition's share of the budget, and never below zero.
pub open spec fn window_start(high: int, max_messages: int, partition_count: int) -> int
    recommends
        partition_count > 0,
{
    let start: int = high - per_partition_budget(max_messages, partition_count);
    if start < 0 {
        0
    } else {
        start
    }
}

/// A window starts at or above zero and, where the partition holds anything,
/// at or below the high watermark; it spans no more than the partition's
/// share of the budget; and the shares of all partitions together stay
/// within the budget.
pub proof fn lemma_window_within_budget(high: int, max_messages: int, partition_count: int)
    requires
        max_messages >= 0,
        partition_count > 0,
    ensures
        window_start(high, max_messages, partition_count) >= 0,
        high >= 0 ==> window_start(high, max_messages, partition_count) <= high,
        high >= 0 ==> high - window_start(high, max_messages, partition_count)
            <= per_partition_budget(max_messages, partition_count),
        0 <= partition_count * per_partition_budget(max_messages, partition_count) <= max_messages,
{
    assert(0 <= partition_count * (max_messages / partition_count) <= max_messages) by (nonlinear_arith)
        requires
            max_messages >= 0,
            partition_count > 0,
    ;
    assert(max_messages / partition_count >= 0) by (nonlinear_arith)
        requires
            max_messages >= 0,
            partition_count > 0,
    ;
}

/// Computes the start offset of one partition's sampling window.
pub fn start_offset(high: i64, max_messages: usize, partition_count: usize) -> (start: i64)
    requires
        partition_count > 0,
    ensures
        start == window_start(high as int, max_messages as int, partition_count as int),
{
    if high <= 0 {
        return 0;
    }
    let share: usize = max_messages / partition_count;
    let high_wide: u64 = high as u64;
    let share_wide: u64 = share as u64;
    if share_wide >= high_wide {
        0
    } else {
        (high_wide - share_wide) as i64
    }
}

/// The start offsets of a sampling read of all partitions, by partition:
/// each from the partition's high watermark and an even share of the budget.
pub open spec fn planned_starts(watermarks: Seq<WatermarkPair>, max_messages: int) -> Seq<i64> {
    Seq::new(
        watermarks.len(),
        |p: int| window_start(watermarks[p].high as int, max_messages, watermarks.len() as int) as i64,
    )
}

/// Computes where a sampling read starts in each partition. `watermarks`
/// holds the watermarks of all partitions of the topic, by partition.
pub fn start_offsets(watermarks: &Vec<WatermarkPair>, max_messages: usize) -> (starts: Vec<i64>)
    ensures
        starts@ == planned_starts(watermarks@, max_messages as int),
        forall|p: int| 0 <= p < starts.len() ==> starts[p] >= 0,
{
    let partition_count: usize = watermarks.len();
    let mut starts: Vec<i64> = Vec::new();
    let mut p: usize = 0;
    while p < partition_count
        invariant
            partition_count == watermarks.len(),
            p <= partition_count,
            starts.len() == p,
            forall|q: int|
                0 <= q < p ==> starts[q] == window_start(
                    watermarks[q].high as int,
                    max_messages as int,
                    partition_count as int,
                ),
        decreases partition_count - p,
    {
        let start: i64 = start_offset(watermarks[p].high, max_messages, partition_count);
        starts.push(start);
        p += 1;
    }
    assert(starts@ =~= planned_starts(watermarks@, max_messages as int));
    starts
}

/// The entries of the assignment of a topic's partitions, each at its start
/// offset.
pub open spec fn planned_assignment(topic: Seq<char>, starts: Seq<i64>) -> Seq<
    (Seq<char>, i32, i64),
> {
    Seq::new(starts.len(), |p: int| (topic, p as i32, starts[p]))
}

/// Builds the list that assigns every partition of `topic` at its start
/// offset. `starts` holds the start offsets by partition. A negative start
/// offset is refused.
pub fn assignment_list(topic: &str, starts: &Vec<i64>) -> (list: Result<
    TopicPartitionList,
    EngineError,
>)
    requires
        !topic@.contains('\0'),
        starts.len() <= i32::MAX,
    ensures
        list is Ok <==> forall|p: int| 0 <= p < starts.len() ==> starts[p] >= 0,
        list is Ok ==> assigned(list.unwrap()) == planned_assignment(topic@, starts@),
        list is Err ==> list.unwrap_err() is SetOffset,
{
    let mut list = TopicPartitionList::new();
    let mut p: usize = 0;
    while p < starts.len()
        invariant
            !topic@.contains('\0'),
            starts.len() <= i32::MAX,
            p <= starts.len(),
            forall|q: int| 0 <= q < p ==> starts[q] >= 0,
            assigned(list) == planned_assignment(topic@, starts@.take(p as int)),
        decreases starts.len() - p,
    {
        let partition: i32 = p as i32;
        proof {
            let before = assigned(list);
            assert forall|i: int| 0 <= i < before.len() implies !((#[trigger] before[i]).0
                == topic@ && before[i].1 == partition) by {
                assert(before[i].1 == i as i32);
            }
        }
        match add_start(&mut list, topic, partition, starts[p]) {
            Ok(()) => {},
            Err(error) => {
                return Err(EngineError::SetOffset { cause: error_text(&error) });
            },
        }
        proof {
            assert(starts@.take(p + 1) =~= starts@.take(p as int).push(starts[p as int]));
            assert(assigned(list) =~= planned_assignment(topic@, starts@.take(p + 1)));
        }
        p += 1;
    }
    assert(starts@.take(p as int) =~= starts@);
    Ok(list)
}

/// Builds the list that starts a sampling read of `topic`: every partition
/// assigned at the start of its window. `watermarks` holds the watermarks of
/// all partitions, by partition.
pub fn sampling_assignment(
    topic: &str,
    watermarks: &Vec<WatermarkPair>,
    max_messages: usize,
) -> (list: Result<TopicPartitionList, EngineError>)
    requires
        !topic@.contains('\0'),
        watermarks.len() <= i32::MAX,
    ensures
        list is Ok,
        assigned(list.unwrap()) == planned_assignment(
            topic@,
            planned_starts(watermarks@, max_messages as int),
        ),
{
    let starts = start_offsets(watermarks, max_messages);
    assignment_list(topic, &starts)
}

} // verus!
