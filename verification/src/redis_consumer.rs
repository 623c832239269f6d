//! The options of a consumer of Redis streams.

use std::time::Duration;

use vstd::prelude::*;

use crate::consumer::{ConsumerGroup, ConsumerId, ConsumerMode, ConsumerOptions};
use crate::error::{RedisErr, RedisResult, StreamErr};
use crate::foreign;

verus! {

/// How many seconds an ACK takes to realize, if nothing else is set.
pub const DEFAULT_AUTO_COMMIT_DELAY: u64 = 5;

/// How many seconds there are at least between two commits, if nothing else is set.
pub const DEFAULT_AUTO_COMMIT_INTERVAL: u64 = 1;

/// How many seconds there are at least between two checks of others, if nothing else is set.
pub const DEFAULT_AUTO_CLAIM_INTERVAL: u64 = 30;

/// How many seconds a consumer is idle before it is considered dead, if nothing else is set.
pub const DEFAULT_AUTO_CLAIM_IDLE: u64 = 60;

/// How many messages are read in one request, if nothing else is set.
pub const DEFAULT_BATCH_SIZE: usize = 100;

/// How many messages are read in one request by a load balanced consumer, if nothing else is set.
pub const DEFAULT_LOAD_BALANCED_BATCH_SIZE: usize = 10;

#[derive(Debug, Copy, Clone, PartialEq, Eq, Structural)]
pub enum AutoStreamReset {
    /// Use `0` as ID, which is the earliest message.
    Earliest,
    /// Use `$` as ID, which is the latest message.
    Latest,
}

#[derive(Debug, Copy, Clone, PartialEq, Eq, Structural)]
pub enum AutoCommit {
    /// `XREAD` with `NOACK`. This acknowledges messages as soon as they are fetched.
    /// In the event of service restart, this will likely result in messages being skipped.
    Immediate,
    /// Auto ack and commit, but only after `auto_commit_delay` has passed since messages are read.
    Delayed,
    /// Do not auto ack, but continually commit acked messages to the server as new messages are
    /// read. The consumer will not commit more often than `auto_commit_interval`.
    /// You have to ack manually.
    Rolling,
    /// Never auto ack or commit.
    /// You have to ack and commit manually.
    Disabled,
}

#[derive(Debug, Copy, Clone, PartialEq, Eq, Structural)]
pub enum ShardOwnership {
    /// Consumers in the same group share the same shard
    Shared,
    /// Consumers claim ownership of a shard
    Owned,
}

/// What the options say.
pub struct ConsumerSettings {
    pub mode: ConsumerMode,
    pub group_id: Option<ConsumerGroup>,
    pub consumer_id: Option<ConsumerId>,
    pub consumer_timeout: Option<Duration>,
    pub auto_stream_reset: AutoStreamReset,
    pub auto_commit: AutoCommit,
    pub auto_commit_delay: Duration,
    pub auto_commit_interval: Duration,
    pub auto_claim_interval: Option<Duration>,
    pub auto_claim_idle: Duration,
    pub batch_size: usize,
    pub shard_ownership: ShardOwnership,
}

/// What the options say if nothing is set but the mode.
pub open spec fn default_settings(mode: ConsumerMode) -> ConsumerSettings {
    ConsumerSettings {
        mode,
        group_id: None,
        consumer_id: None,
        consumer_timeout: None,
        auto_stream_reset: AutoStreamReset::Latest,
        auto_commit: AutoCommit::Delayed,
        auto_commit_delay: foreign::whole_seconds(DEFAULT_AUTO_COMMIT_DELAY),
        auto_commit_interval: foreign::whole_seconds(DEFAULT_AUTO_COMMIT_INTERVAL),
        auto_claim_interval: Some(foreign::whole_seconds(DEFAULT_AUTO_CLAIM_INTERVAL)),
        auto_claim_idle: foreign::whole_seconds(DEFAULT_AUTO_CLAIM_IDLE),
        batch_size: if mode == ConsumerMode::LoadBalanced {
            DEFAULT_LOAD_BALANCED_BATCH_SIZE
        } else {
            DEFAULT_BATCH_SIZE
        },
        shard_ownership: ShardOwnership::Shared,
    }
}

/// Whether a duration is as many seconds long.
pub open spec fn is_secs(duration: Duration, secs: u64) -> bool {
    foreign::nanoseconds_of(duration) == secs * 1_000_000_000
}

/// Whether the durations are as long as they are if none is set.
pub open spec fn has_default_lengths(settings: ConsumerSettings) -> bool {
    &&& is_secs(settings.auto_commit_delay, DEFAULT_AUTO_COMMIT_DELAY)
    &&& is_secs(settings.auto_commit_interval, DEFAULT_AUTO_COMMIT_INTERVAL)
    &&& settings.auto_claim_interval matches Some(interval) && is_secs(
        interval,
        DEFAULT_AUTO_CLAIM_INTERVAL,
    )
    &&& is_secs(settings.auto_claim_idle, DEFAULT_AUTO_CLAIM_IDLE)
}

/// Whether to pre-fetch: in real time always, else if acks are committed in the background.
pub open spec fn pre_fetches(settings: ConsumerSettings) -> bool {
    settings.mode == ConsumerMode::RealTime || settings.auto_commit == AutoCommit::Delayed
        || settings.auto_commit == AutoCommit::Rolling
}

/// Options for Consumers, including mode, group and other streaming mechanisms.
#[derive(Debug)]
pub struct RedisConsumerOptions {
    mode: ConsumerMode,
    group_id: Option<ConsumerGroup>,
    consumer_id: Option<ConsumerId>,
    consumer_timeout: Option<Duration>,
    auto_stream_reset: AutoStreamReset,
    auto_commit: AutoCommit,
    auto_commit_delay: Duration,
    auto_commit_interval: Duration,
    auto_claim_interval: Option<Duration>,
    auto_claim_idle: Duration,
    batch_size: usize,
    shard_ownership: ShardOwnership,
}

impl View for RedisConsumerOptions {
    type V = ConsumerSettings;

    closed spec fn view(&self) -> ConsumerSettings {
        ConsumerSettings {
            mode: self.mode,
            group_id: self.group_id,
            consumer_id: self.consumer_id,
            consumer_timeout: self.consumer_timeout,
            auto_stream_reset: self.auto_stream_reset,
            auto_commit: self.auto_commit,
            auto_commit_delay: self.auto_commit_delay,
            auto_commit_interval: self.auto_commit_interval,
            auto_claim_interval: self.auto_claim_interval,
            auto_claim_idle: self.auto_claim_idle,
            batch_size: self.batch_size,
            shard_ownership: self.shard_ownership,
        }
    }
}

impl Clone for RedisConsumerOptions {
    fn clone(&self) -> (copy: Self)
        ensures
            copy@ == self@,
    {
        proof {
            use_type_invariant(self);
        }
        RedisConsumerOptions {
            mode: self.mode,
            group_id: self.group_id.clone(),
            consumer_id: self.consumer_id.clone(),
            consumer_timeout: self.consumer_timeout,
            auto_stream_reset: self.auto_stream_reset,
            auto_commit: self.auto_commit,
            auto_commit_delay: self.auto_commit_delay,
            auto_commit_interval: self.auto_commit_interval,
            auto_claim_interval: self.auto_claim_interval,
            auto_claim_idle: self.auto_claim_idle,
            batch_size: self.batch_size,
            shard_ownership: self.shard_ownership,
        }
    }
}

impl Default for RedisConsumerOptions {
    fn default() -> (options: Self)
        ensures
            options@ == default_settings(ConsumerMode::RealTime),
            has_default_lengths(options@),
            options@.mode == ConsumerMode::RealTime,
            options@.group_id is None,
            options@.consumer_id is None,
            options@.consumer_timeout is None,
            options@.auto_stream_reset == AutoStreamReset::Latest,
            options@.auto_commit == AutoCommit::Delayed,
            foreign::nanoseconds_of(options@.auto_commit_delay) == 5_000_000_000,
            foreign::nanoseconds_of(options@.auto_commit_interval) == 1_000_000_000,
            options@.auto_claim_interval matches Some(interval) && foreign::nanoseconds_of(interval)
                == 30_000_000_000,
            foreign::nanoseconds_of(options@.auto_claim_idle) == 60_000_000_000,
            options@.batch_size == 100,
            options@.shard_ownership == ShardOwnership::Shared,
    {
        Self::new(ConsumerMode::RealTime)
    }
}

/// What a running consumer needs to know of its options.
#[derive(Debug, PartialEq, Eq)]
pub struct ConsumerConfig {
    pub group_id: Option<ConsumerGroup>,
    pub consumer_id: Option<ConsumerId>,
    pub auto_ack: bool,
    pub pre_fetch: bool,
}

/// The part of the settings that a running consumer needs to know.
pub open spec fn config_of(settings: ConsumerSettings) -> ConsumerConfig {
    ConsumerConfig {
        group_id: settings.group_id,
        consumer_id: settings.consumer_id,
        auto_ack: settings.auto_commit == AutoCommit::Delayed,
        pre_fetch: pre_fetches(settings),
    }
}

impl From<&RedisConsumerOptions> for ConsumerConfig {
    fn from(options: &RedisConsumerOptions) -> (config: Self)
        ensures
            config.group_id == options@.group_id,
            config.consumer_id == options@.consumer_id,
            config.auto_ack == (options@.auto_commit == AutoCommit::Delayed),
            config.pre_fetch == match (options@.mode, options@.auto_commit) {
                (ConsumerMode::RealTime, _) => true,
                (_, AutoCommit::Delayed) => true,
                (_, AutoCommit::Rolling) => true,
                _ => false,
            },
    {
        Self {
            group_id: options.consumer_group().ok().cloned(),
            consumer_id: options.consumer_id().cloned(),
            auto_ack: *options.auto_commit() == AutoCommit::Delayed,
            pre_fetch: options.pre_fetch(),
        }
    }
}

impl vstd::std_specs::convert::FromSpecImpl<&RedisConsumerOptions> for ConsumerConfig {
    open spec fn obeys_from_spec() -> bool {
        true
    }

    open spec fn from_spec(options: &RedisConsumerOptions) -> ConsumerConfig {
        config_of(options@)
    }
}

impl ConsumerOptions for RedisConsumerOptions {
    type Error = RedisErr;

    open spec fn chosen_mode(&self) -> ConsumerMode {
        self@.mode
    }

    open spec fn chosen_group(&self) -> Option<ConsumerGroup> {
        self@.group_id
    }

    fn new(mode: ConsumerMode) -> (options: Self)
        ensures
            options@ == default_settings(mode),
            has_default_lengths(options@),
            options@.mode == mode,
            options@.group_id is None,
            options@.consumer_id is None,
            options@.consumer_timeout is None,
            options@.auto_stream_reset == AutoStreamReset::Latest,
            options@.auto_commit == AutoCommit::Delayed,
            foreign::nanoseconds_of(options@.auto_commit_delay) == 5_000_000_000,
            foreign::nanoseconds_of(options@.auto_commit_interval) == 1_000_000_000,
            options@.auto_claim_interval matches Some(interval) && foreign::nanoseconds_of(interval)
                == 30_000_000_000,
            foreign::nanoseconds_of(options@.auto_claim_idle) == 60_000_000_000,
            options@.batch_size == match mode {
                ConsumerMode::LoadBalanced => 10usize,
                _ => 100usize,
            },
            options@.shard_ownership == ShardOwnership::Shared,
    {
        Self {
            mode,
            group_id: None,
            consumer_id: None,
            consumer_timeout: None,
            auto_stream_reset: AutoStreamReset::Latest,
            auto_commit: AutoCommit::Delayed,
            auto_commit_delay: Duration::from_secs(DEFAULT_AUTO_COMMIT_DELAY),
            auto_commit_interval: Duration::from_secs(DEFAULT_AUTO_COMMIT_INTERVAL),
            auto_claim_interval: Some(Duration::from_secs(DEFAULT_AUTO_CLAIM_INTERVAL)),
            auto_claim_idle: Duration::from_secs(DEFAULT_AUTO_CLAIM_IDLE),
            batch_size: if mode == ConsumerMode::LoadBalanced {
                DEFAULT_LOAD_BALANCED_BATCH_SIZE
            } else {
                DEFAULT_BATCH_SIZE
            },
            shard_ownership: ShardOwnership::Shared,
        }
    }

    fn mode(&self) -> (mode: RedisResult<&ConsumerMode>)
        ensures
            mode == Ok::<&ConsumerMode, StreamErr<RedisErr>>(&self@.mode),
    {
        Ok(&self.mode)
    }

    fn consumer_group(&self) -> (group: RedisResult<&ConsumerGroup>)
        ensures
            match self@.group_id {
                Some(group_id) => group == Ok::<&ConsumerGroup, StreamErr<RedisErr>>(&group_id),
                None => group == Err::<&ConsumerGroup, StreamErr<RedisErr>>(
                    StreamErr::ConsumerGroupNotSet,
                ),
            },
    {
        self.group_id.as_ref().ok_or(StreamErr::ConsumerGroupNotSet)
    }

    /// SeaStreamer Redis offers two load-balancing mechanisms:
    ///
    /// ### (Fine-grained) Shared shard
    ///
    /// Multiple consumers in the same group can share the same shard.
    /// This is load-balanced in a first-ask-first-served manner, according to the Redis
    /// documentation. This can be considered dynamic load-balancing: faster consumers will consume
    /// more messages.
    ///
    /// This is the vanilla Redis consumer group behaviour.
    ///
    /// ### (Coarse) Owned shard
    ///
    /// Multiple consumers within the same group do not share a shard.
    /// Each consumer will attempt to claim ownership of a shard, and other consumers will not step
    /// in. However, if a consumer has been idle for too long (defined by `consumer_timeout`),
    /// another consumer will step in and kick the other consumer out of the group.
    ///
    /// This mimicks Kafka's consumer group behaviour.
    ///
    /// This is reconciled among consumers via a probabilistic contention avoidance mechanism,
    /// which should be fine with < 100 consumers in the same group.
    fn set_consumer_group(&mut self, group_id: ConsumerGroup) -> (options: RedisResult<&mut Self>)
        ensures
            options matches Ok(options) && options@ == (ConsumerSettings {
                group_id: Some(group_id),
                ..old(self)@
            }),
    {
        proof {
            use_type_invariant(&*self);
        }
        self.group_id = Some(group_id);
        Ok(self)
    }
}

impl RedisConsumerOptions {
    /// A consumer that reads nothing in one request would never read anything.
    #[verifier::type_invariant]
    closed spec fn reads_something(self) -> bool {
        self.batch_size != 0
    }

    /// Unlike Kafka, Redis requires consumers to self-assign consumer IDs.
    /// If unset, SeaStreamer uses a combination of `host id` + `process id` + `thread id` +
    /// `timestamp`.
    pub fn consumer_id(&self) -> (consumer_id: Option<&ConsumerId>)
        ensures
            match self@.consumer_id {
                Some(set) => consumer_id == Some(&set),
                None => consumer_id is None,
            },
    {
        self.consumer_id.as_ref()
    }

    pub fn set_consumer_id(&mut self, consumer_id: ConsumerId) -> (options: &mut Self)
        ensures
            options@ == (ConsumerSettings { consumer_id: Some(consumer_id), ..old(self)@ }),
            *final(self) == *final(options),
    {
        proof {
            use_type_invariant(&*self);
        }
        self.consumer_id = Some(consumer_id);
        self
    }

    /// If None, a default applies.
    pub fn consumer_timeout(&self) -> (consumer_timeout: Option<&Duration>)
        ensures
            match self@.consumer_timeout {
                Some(set) => consumer_timeout == Some(&set),
                None => consumer_timeout is None,
            },
    {
        self.consumer_timeout.as_ref()
    }

    pub fn set_consumer_timeout(
        &mut self,
        consumer_timeout: Option<Duration>,
    ) -> (options: &mut Self)
        ensures
            options@ == (ConsumerSettings { consumer_timeout, ..old(self)@ }),
            *final(self) == *final(options),
    {
        proof {
            use_type_invariant(&*self);
        }
        self.consumer_timeout = consumer_timeout;
        self
    }

    /// Where to stream from when the consumer group does not exists.
    ///
    /// If unset, defaults to Latest.
    pub fn set_auto_stream_reset(&mut self, v: AutoStreamReset) -> (options: &mut Self)
        ensures
            options@ == (ConsumerSettings { auto_stream_reset: v, ..old(self)@ }),
            *final(self) == *final(options),
    {
        proof {
            use_type_invariant(&*self);
        }
        self.auto_stream_reset = v;
        self
    }

    pub fn auto_stream_reset(&self) -> (auto_stream_reset: &AutoStreamReset)
        ensures
            *auto_stream_reset == self@.auto_stream_reset,
    {
        &self.auto_stream_reset
    }

    /// If you want to commit only what have been explicitly acked, set it to `Disabled`.
    ///
    /// If unset, defaults to `Delayed`.
    pub fn set_auto_commit(&mut self, v: AutoCommit) -> (options: &mut Self)
        ensures
            options@ == (ConsumerSettings { auto_commit: v, ..old(self)@ }),
            *final(self) == *final(options),
    {
        proof {
            use_type_invariant(&*self);
        }
        self.auto_commit = v;
        self
    }

    pub fn auto_commit(&self) -> (auto_commit: &AutoCommit)
        ensures
            *auto_commit == self@.auto_commit,
    {
        &self.auto_commit
    }

    /// The time needed for an ACK to realize.
    /// It is timed from the moment `next` returns.
    /// This option is only relevant when `auto_commit` is `Delayed`.
    ///
    /// If unset, defaults to [`DEFAULT_AUTO_COMMIT_DELAY`].
    pub fn set_auto_commit_delay(&mut self, v: Duration) -> (options: &mut Self)
        ensures
            options@ == (ConsumerSettings { auto_commit_delay: v, ..old(self)@ }),
            *final(self) == *final(options),
    {
        proof {
            use_type_invariant(&*self);
        }
        self.auto_commit_delay = v;
        self
    }

    pub fn auto_commit_delay(&self) -> (auto_commit_delay: &Duration)
        ensures
            *auto_commit_delay == self@.auto_commit_delay,
    {
        &self.auto_commit_delay
    }

    /// The minimum interval for acks to be committed to the server.
    /// This option is only relevant when `auto_commit` is `Rolling`.
    ///
    /// If unset, defaults to [`DEFAULT_AUTO_COMMIT_INTERVAL`].
    pub fn set_auto_commit_interval(&mut self, v: Duration) -> (options: &mut Self)
        ensures
            options@ == (ConsumerSettings { auto_commit_interval: v, ..old(self)@ }),
            *final(self) == *final(options),
    {
        proof {
            use_type_invariant(&*self);
        }
        self.auto_commit_interval = v;
        self
    }

    pub fn auto_commit_interval(&self) -> (auto_commit_interval: &Duration)
        ensures
            *auto_commit_interval == self@.auto_commit_interval,
    {
        &self.auto_commit_interval
    }

    /// The minimum interval for checking the XPENDING of others in the group.
    /// This option is only relevant when `mode` is `LoadBalanced`.
    ///
    /// Defaults to [`DEFAULT_AUTO_CLAIM_INTERVAL`]. None means never.
    pub fn set_auto_claim_interval(&mut self, v: Option<Duration>) -> (options: &mut Self)
        ensures
            options@ == (ConsumerSettings { auto_claim_interval: v, ..old(self)@ }),
            *final(self) == *final(options),
    {
        proof {
            use_type_invariant(&*self);
        }
        self.auto_claim_interval = v;
        self
    }

    pub fn auto_claim_interval(&self) -> (auto_claim_interval: Option<&Duration>)
        ensures
            match self@.auto_claim_interval {
                Some(set) => auto_claim_interval == Some(&set),
                None => auto_claim_interval is None,
            },
    {
        self.auto_claim_interval.as_ref()
    }

    /// The idle time for a consumer considered dead and to XCLAIM its messages.
    /// This option is only relevant when `mode` is `LoadBalanced`.
    ///
    /// Defaults to [`DEFAULT_AUTO_CLAIM_IDLE`].
    pub fn set_auto_claim_idle(&mut self, v: Duration) -> (options: &mut Self)
        ensures
            options@ == (ConsumerSettings { auto_claim_idle: v, ..old(self)@ }),
            *final(self) == *final(options),
    {
        proof {
            use_type_invariant(&*self);
        }
        self.auto_claim_idle = v;
        self
    }

    pub fn auto_claim_idle(&self) -> (auto_claim_idle: &Duration)
        ensures
            *auto_claim_idle == self@.auto_claim_idle,
    {
        &self.auto_claim_idle
    }

    /// Maximum number of messages to read from Redis in one request.
    /// Usually, a larger N would reduce the number of roundtrips.
    /// However, this also prevent messages from being chunked properly to load balance
    /// among consumers.
    ///
    /// Choose this number by considering the throughput of the stream, number of consumers
    /// in one group, and the time required to process each message.
    ///
    /// Cannot be `0`. If unset: if mode is `LoadBalanced`, defaults to
    /// [`DEFAULT_LOAD_BALANCED_BATCH_SIZE`]. Otherwise, defaults to [`DEFAULT_BATCH_SIZE`].
    pub fn set_batch_size(&mut self, v: usize) -> (options: &mut Self)
        requires
            v != 0,
        ensures
            options@ == (ConsumerSettings { batch_size: v, ..old(self)@ }),
            *final(self) == *final(options),
    {
        self.batch_size = v;
        self
    }

    pub fn batch_size(&self) -> (batch_size: &usize)
        ensures
            *batch_size == self@.batch_size,
            *batch_size != 0,
    {
        proof {
            use_type_invariant(self);
        }
        &self.batch_size
    }

    /// Default is [`ShardOwnership::Shared`].
    pub fn shard_ownership(&self) -> (shard_ownership: &ShardOwnership)
        ensures
            *shard_ownership == self@.shard_ownership,
    {
        &self.shard_ownership
    }

    pub fn set_shard_ownership(&mut self, shard_ownership: ShardOwnership) -> (options: &mut Self)
        ensures
            options@ == (ConsumerSettings { shard_ownership, ..old(self)@ }),
            *final(self) == *final(options),
    {
        proof {
            use_type_invariant(&*self);
        }
        self.shard_ownership = shard_ownership;
        self
    }

    /// Whether pre-fetch the next page as you are streaming. This results in less jitter.
    /// This option is a side effects of consumer mode and auto_commit.
    pub fn pre_fetch(&self) -> (pre_fetch: bool)
        ensures
            pre_fetch == pre_fetches(self@),
            pre_fetch == match (self@.mode, self@.auto_commit) {
                (ConsumerMode::RealTime, _) => true,
                (_, AutoCommit::Delayed) => true,
                (_, AutoCommit::Rolling) => true,
                _ => false,
            },
    {
        if self.mode == ConsumerMode::RealTime {
            true
        } else {
            matches!(self.auto_commit(), AutoCommit::Delayed | AutoCommit::Rolling)
        }
    }
}

/// If nothing is set, the modes differ in the mode and the size of a batch, and in nothing else.
pub proof fn law_modes_share_their_defaults(mode: ConsumerMode, other: ConsumerMode)
    ensures
        default_settings(mode) == (ConsumerSettings {
            mode,
            batch_size: default_settings(mode).batch_size,
            ..default_settings(other)
        }),
        default_settings(mode).mode == mode,
{
}

/// If nothing is set, acks are committed with a delay, a stream is read from its latest message and
/// shards are shared, in every mode. There is no group, no consumer id and no timeout.
pub proof fn law_defaults(mode: ConsumerMode)
    ensures
        default_settings(mode).group_id is None,
        default_settings(mode).consumer_id is None,
        default_settings(mode).consumer_timeout is None,
        default_settings(mode).auto_stream_reset == AutoStreamReset::Latest,
        default_settings(mode).auto_commit == AutoCommit::Delayed,
        default_settings(mode).shard_ownership == ShardOwnership::Shared,
        default_settings(mode).batch_size == match mode {
            ConsumerMode::LoadBalanced => 10usize,
            ConsumerMode::RealTime => 100usize,
            ConsumerMode::Resumable => 100usize,
        },
        default_settings(mode).auto_commit_delay == foreign::whole_seconds(5),
        default_settings(mode).auto_commit_interval == foreign::whole_seconds(1),
        default_settings(mode).auto_claim_interval == Some(foreign::whole_seconds(30)),
        default_settings(mode).auto_claim_idle == foreign::whole_seconds(60),
{
}

/// A running consumer knows the group and the id that are set. It acks by itself if and only if
/// acks are committed with a delay. It does not pre-fetch if and only if it is not in real time and
/// acks are committed at once or not at all.
pub proof fn law_config_follows_the_settings(settings: ConsumerSettings)
    ensures
        config_of(settings).group_id == settings.group_id,
        config_of(settings).consumer_id == settings.consumer_id,
        config_of(settings).auto_ack <==> settings.auto_commit is Delayed,
        !config_of(settings).pre_fetch <==> settings.mode !is RealTime && (
        settings.auto_commit is Immediate || settings.auto_commit is Disabled),
{
}

/// Settings that agree in the group, the id, the mode and the way of committing make the same
/// running consumer, whatever else they say.
pub proof fn law_config_reads_nothing_else(settings: ConsumerSettings, other: ConsumerSettings)
    requires
        settings.group_id == other.group_id,
        settings.consumer_id == other.consumer_id,
        settings.mode == other.mode,
        settings.auto_commit == other.auto_commit,
    ensures
        config_of(settings) == config_of(other),
{
}

/// A consumer that acks by itself also pre-fetches, in every mode.
pub proof fn law_auto_ack_pre_fetches(settings: ConsumerSettings)
    ensures
        config_of(settings).auto_ack ==> config_of(settings).pre_fetch,
{
}

} // verus!
