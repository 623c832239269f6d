//! The logic of a client of Redis streams.
//!
//! A producer hands its messages to a task, which routes each one to a shard, sends it, tries again
//! where that is of use and answers with a receipt. A consumer is described by its options.
//!
//! Sockets, timers and the async runtime are the business of whoever runs the task: it is a machine
//! that says what to wait for and what to do next.

pub mod consumer;
pub mod dispatch;
pub mod dispatch_laws;
pub mod error;
pub mod foreign;
pub mod message;
pub mod outlet;
pub mod producer;
pub mod redis_consumer;
pub mod sharder;
pub mod step_laws;
pub mod task;
pub mod text;

pub use consumer::{ConsumerGroup, ConsumerId, ConsumerMode, ConsumerOptions};
pub use dispatch::{Abort, Action, Delivery, FailureKind, ProducerTask, Stage, MAX_RETRY, MSG};
pub use error::{RedisErr, RedisResult, StreamErr};
pub use message::{MessageHeader, Receipt, SequenceNo, ShardId, StreamKey, Timestamp};
pub use outlet::Outlet;
pub use producer::{
    create_producer, RedisProducer, RedisProducerOptions, SendFuture, SendRequest,
    RECEIPTS_PER_REQUEST, SEA_STREAMER_INTERNAL,
};
pub use redis_consumer::{
    AutoCommit, AutoStreamReset, ConsumerConfig, RedisConsumerOptions, ShardOwnership,
    DEFAULT_AUTO_CLAIM_IDLE, DEFAULT_AUTO_CLAIM_INTERVAL, DEFAULT_AUTO_COMMIT_DELAY,
    DEFAULT_AUTO_COMMIT_INTERVAL, DEFAULT_BATCH_SIZE, DEFAULT_LOAD_BALANCED_BATCH_SIZE,
};
pub use sharder::{BoxedSharder, PseudoRandomSharder, RoundRobinSharder, Sharder, SharderConfig};
pub use task::{spawn_blocking, spawn_task, JoinError};
