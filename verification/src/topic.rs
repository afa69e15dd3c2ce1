//! Topics and the records read from them.

use vstd::prelude::*;
use vstd::utf8::{decode_utf8, valid_utf8};
use crate::text::text_of;

verus! {

/// A topic as listed to the operator.
#[derive(Debug, Clone)]
pub struct Topic {
    pub name: String,
    pub partitions: i32,
    pub replication_factor: i32,
}

/// One partition of a topic, with its leader and replica placement.
#[derive(Debug, Clone)]
pub struct Partition {
    pub id: i32,
    pub leader: i32,
    pub replicas: Vec<i32>,
    pub isrs: Vec<i32>,
}

/// A record sampled from a topic, with key and payload read as text.
#[derive(Debug, Clone)]
pub struct KafkaMessage {
    pub partition: i32,
    pub offset: i64,
    pub timestamp: Option<i64>,
    pub key: Option<String>,
    pub payload: Option<String>,
}

/// A `KafkaMessage` with its strings as sequences of characters.
pub struct MessageView {
    pub partition: i32,
    pub offset: i64,
    pub timestamp: Option<i64>,
    pub key: Option<Seq<char>>,
    pub payload: Option<Seq<char>>,
}

impl View for KafkaMessage {
    type V = MessageView;

    open spec fn view(&self) -> MessageView {
        MessageView {
            partition: self.partition,
            offset: self.offset,
            timestamp: self.timestamp,
            key: text_of(self.key),
            payload: text_of(self.payload),
        }
    }
}

/// A record as the consumer delivers it: key and payload are bytes.
#[derive(Debug, Clone)]
pub struct RawRecord {
    pub partition: i32,
    pub offset: i64,
    /// When the record was produced, in milliseconds since the epoch.
    pub timestamp: Option<i64>,
    pub key: Option<Vec<u8>>,
    pub payload: Option<Vec<u8>>,
}

/// The text that bytes are read as: their UTF-8 decoding, with the
/// replacement character in place of what is no valid UTF-8.
pub uninterp spec fn lossy_text(bytes: Seq<u8>) -> Seq<char>;

/// `String::from_utf8_lossy`: the contract names the text, and says that
/// valid UTF-8 is read as what it encodes.
#[verifier::external_body]
fn read_lossy(bytes: &[u8]) -> (text: String)
    ensures
        text@ == lossy_text(bytes@),
        valid_utf8(bytes@) ==> text@ == decode_utf8(bytes@),
{
    String::from_utf8_lossy(bytes).into_owned()
}

/// The text of a field that may be missing.
pub open spec fn lossy_field(bytes: Option<Vec<u8>>) -> Option<Seq<char>> {
    match bytes {
        Some(present) => Some(lossy_text(present@)),
        None => None,
    }
}

/// What a delivered record is sampled as.
pub open spec fn decoded(raw: RawRecord) -> MessageView {
    MessageView {
        partition: raw.partition,
        offset: raw.offset,
        timestamp: raw.timestamp,
        key: lossy_field(raw.key),
        payload: lossy_field(raw.payload),
    }
}

fn decode_field(bytes: &Option<Vec<u8>>) -> (text: Option<String>)
    ensures
        text_of(text) == lossy_field(*bytes),
        bytes matches Some(present) ==> (valid_utf8(present@) ==> text_of(text) == Some(
            decode_utf8(present@),
        )),
{
    match bytes {
        Some(present) => Some(read_lossy(present.as_slice())),
        None => None,
    }
}

/// Reads a delivered record: key and payload become text, and bytes that are
/// no valid UTF-8 are replaced, not refused.
pub fn decode_record(raw: &RawRecord) -> (message: KafkaMessage)
    ensures
        message@ == decoded(*raw),
        raw.key matches Some(key) ==> (valid_utf8(key@) ==> message@.key == Some(
            decode_utf8(key@),
        )),
        raw.payload matches Some(payload) ==> (valid_utf8(payload@) ==> message@.payload == Some(
            decode_utf8(payload@),
        )),
{
    KafkaMessage {
        partition: raw.partition,
        offset: raw.offset,
        timestamp: raw.timestamp,
        key: decode_field(&raw.key),
        payload: decode_field(&raw.payload),
    }
}

/// The retained range of one partition: `low` is the oldest offset still
/// held, `high` the offset that the next record will get.
#[derive(Debug, Clone, Copy, PartialEq, Eq)]
pub struct WatermarkPair {
    pub low: i64,
    pub high: i64,
}

impl WatermarkPair {
    /// The number of records between the two watermarks.
    pub open spec fn span(self) -> int {
        self.high - self.low
    }
}

} // verus!
