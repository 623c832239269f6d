//! What can go wrong with a stream, and with a Redis server behind it.

use vstd::prelude::*;

verus! {

/// An error of a stream. `E` is the error of the backend.
#[derive(Debug, PartialEq, Eq)]
pub enum StreamErr<E> {
    /// The options do not name a consumer group.
    ConsumerGroupNotSet,
    /// The producer is anchored to a stream already.
    AlreadyAnchored,
    /// The producer is not anchored to any stream.
    NotAnchored,
    /// The backend failed.
    Backend(E),
}

/// An error of the Redis backend.
#[derive(Debug, PartialEq, Eq)]
pub enum RedisErr {
    /// The cluster cannot answer now, but may do so soon.
    TryAgain(String),
    /// The task that sends the messages of a producer has ended.
    ProducerDied,
    /// Any other failure, in the server's words.
    Unknown(String),
}

/// The result of an operation on a Redis stream.
pub type RedisResult<T> = Result<T, StreamErr<RedisErr>>;

} // verus!
