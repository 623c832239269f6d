//! What identifies a message: its stream, its shard, its place in the shard and its time.

use time::OffsetDateTime;
use vstd::prelude::*;

verus! {

/// A point in time, with its offset from UTC.
pub type Timestamp = OffsetDateTime;

/// The place of a message among the messages of one shard.
pub type SequenceNo = u64;

/// The name of a stream.
#[derive(Debug, PartialEq, Eq)]
pub struct StreamKey {
    name: String,
}

impl View for StreamKey {
    type V = Seq<char>;

    closed spec fn view(&self) -> Seq<char> {
        self.name@
    }
}

impl Clone for StreamKey {
    fn clone(&self) -> (copy: Self)
        ensures
            copy == *self,
    {
        StreamKey { name: self.name.clone() }
    }
}

impl StreamKey {
    pub fn new(name: String) -> (key: Self)
        ensures
            key@ == name@,
    {
        StreamKey { name }
    }

    pub fn name(&self) -> (name: &str)
        ensures
            name@ == self@,
    {
        self.name.as_str()
    }

    /// Whether this is the stream of the given name.
    pub fn has_name(&self, name: &str) -> (same: bool)
        ensures
            same == (self@ == name@),
    {
        self.name == name.to_owned()
    }
}

/// The number of a shard of a stream.
#[derive(Debug, Copy, Clone, PartialEq, Eq, Structural)]
pub struct ShardId {
    id: u64,
}

impl View for ShardId {
    type V = u64;

    closed spec fn view(&self) -> u64 {
        self.id
    }
}

impl ShardId {
    pub fn new(id: u64) -> (shard: Self)
        ensures
            shard@ == id,
    {
        ShardId { id }
    }

    pub fn id(&self) -> (id: u64)
        ensures
            id == self@,
    {
        self.id
    }
}

/// What a header says, with its stream by name and its shard by number.
pub struct Header {
    pub stream_key: Seq<char>,
    pub shard: u64,
    pub sequence: SequenceNo,
    pub timestamp: Timestamp,
}

/// The metadata of a message.
#[derive(Debug, PartialEq, Eq)]
pub struct MessageHeader {
    stream_key: StreamKey,
    shard_id: ShardId,
    sequence: SequenceNo,
    timestamp: Timestamp,
}

/// The proof that a message was stored: where it stands.
pub type Receipt = MessageHeader;

impl View for MessageHeader {
    type V = Header;

    closed spec fn view(&self) -> Header {
        Header {
            stream_key: self.stream_key@,
            shard: self.shard_id@,
            sequence: self.sequence,
            timestamp: self.timestamp,
        }
    }
}

impl Clone for MessageHeader {
    fn clone(&self) -> (copy: Self)
        ensures
            copy == *self,
    {
        MessageHeader {
            stream_key: self.stream_key.clone(),
            shard_id: self.shard_id,
            sequence: self.sequence,
            timestamp: self.timestamp,
        }
    }
}

impl MessageHeader {
    pub fn new(
        stream_key: StreamKey,
        shard_id: ShardId,
        sequence: SequenceNo,
        timestamp: Timestamp,
    ) -> (header: Self)
        ensures
            header@ == (Header { stream_key: stream_key@, shard: shard_id@, sequence, timestamp }),
    {
        MessageHeader { stream_key, shard_id, sequence, timestamp }
    }

    pub fn stream_key(&self) -> (key: &StreamKey)
        ensures
            key@ == self@.stream_key,
    {
        &self.stream_key
    }

    pub fn shard_id(&self) -> (shard: &ShardId)
        ensures
            shard@ == self@.shard,
    {
        &self.shard_id
    }

    pub fn sequence(&self) -> (sequence: &SequenceNo)
        ensures
            *sequence == self@.sequence,
    {
        &self.sequence
    }

    pub fn timestamp(&self) -> (timestamp: &Timestamp)
        ensures
            *timestamp == self@.timestamp,
    {
        &self.timestamp
    }
}

} // verus!
