//! Estimating how many records a topic retains.

use vstd::prelude::*;
use crate::topic::WatermarkPair;

verus! {

/// The number of retained records that the watermarks of a topic's
/// partitions add up to: the sum of `high - low` over the partitions.
pub open spec fn retained_total(watermarks: Seq<WatermarkPair>) -> int
    decreases watermarks.len(),
{
    if watermarks.len() == 0 {
        0
    } else {
        retained_total(watermarks.drop_last()) + watermarks.last().span()
    }
}

/// The sum of `count` spans lies within `count` times the widest span.
proof fn lemma_total_bounded(watermarks: Seq<WatermarkPair>)
    ensures
        -(watermarks.len() * 0x1_0000_0000_0000_0000) <= retained_total(watermarks)
            <= watermarks.len() * 0x1_0000_0000_0000_0000,
    decreases watermarks.len(),
{
    if watermarks.len() > 0 {
        lemma_total_bounded(watermarks.drop_last());
    }
}

/// Estimates the number of records that a topic retains, from the watermarks
/// of all its partitions. There is no estimate where the sum is beyond what
/// 64 bits hold.
pub fn estimate_count(watermarks: &Vec<WatermarkPair>) -> (count: Option<i64>)
    requires
        watermarks.len() <= i32::MAX,
    ensures
        count == if i64::MIN <= retained_total(watermarks@) <= i64::MAX {
            Some(retained_total(watermarks@) as i64)
        } else {
            None
        },
{
    let mut total: i128 = 0;
    let mut p: usize = 0;
    while p < watermarks.len()
        invariant
            watermarks.len() <= i32::MAX,
            p <= watermarks.len(),
            total == retained_total(watermarks@.take(p as int)),
        decreases watermarks.len() - p,
    {
        proof {
            lemma_total_bounded(watermarks@.take(p as int));
            assert(watermarks@.take(p + 1).drop_last() =~= watermarks@.take(p as int));
        }
        let span: i128 = watermarks[p].high as i128 - watermarks[p].low as i128;
        total = total + span;
        p += 1;
    }
    assert(watermarks@.take(p as int) =~= watermarks@);
    if total < i64::MIN as i128 || total > i64::MAX as i128 {
        None
    } else {
        Some(total as i64)
    }
}

} // verus!
