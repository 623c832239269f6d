use std::time::Duration;

use sea_streamer::{
    AutoCommit, AutoStreamReset, ConsumerConfig, ConsumerGroup, ConsumerId, ConsumerMode,
    ConsumerOptions, RedisConsumerOptions, ShardOwnership, StreamErr,
};

#[test]
fn defaults_of_a_real_time_consumer() {
    let options = RedisConsumerOptions::default();
    assert_eq!(options.mode(), Ok(&ConsumerMode::RealTime));
    assert_eq!(options.consumer_group(), Err(StreamErr::ConsumerGroupNotSet));
    assert_eq!(options.consumer_id(), None);
    assert_eq!(options.consumer_timeout(), None);
    assert_eq!(options.auto_stream_reset(), &AutoStreamReset::Latest);
    assert_eq!(options.auto_commit(), &AutoCommit::Delayed);
    assert_eq!(options.auto_commit_delay(), &Duration::from_millis(5_000));
    assert_eq!(options.auto_commit_interval(), &Duration::from_millis(1_000));
    assert_eq!(options.auto_claim_interval(), Some(&Duration::from_millis(30_000)));
    assert_eq!(options.auto_claim_idle(), &Duration::from_millis(60_000));
    assert_eq!(options.batch_size(), &100);
    assert_eq!(options.shard_ownership(), &ShardOwnership::Shared);
    assert!(options.pre_fetch());
}

#[test]
fn only_load_balanced_consumers_read_small_batches() {
    assert_eq!(RedisConsumerOptions::new(ConsumerMode::RealTime).batch_size(), &100);
    assert_eq!(RedisConsumerOptions::new(ConsumerMode::Resumable).batch_size(), &100);
    assert_eq!(RedisConsumerOptions::new(ConsumerMode::LoadBalanced).batch_size(), &10);
}

#[test]
fn what_is_set_is_what_is_got() {
    let mut options = RedisConsumerOptions::new(ConsumerMode::LoadBalanced);
    options
        .set_consumer_id(ConsumerId::new("me".to_string()))
        .set_consumer_timeout(Some(Duration::from_secs(3)))
        .set_auto_stream_reset(AutoStreamReset::Earliest)
        .set_auto_commit(AutoCommit::Rolling)
        .set_auto_commit_delay(Duration::from_secs(11))
        .set_auto_commit_interval(Duration::from_secs(12))
        .set_auto_claim_interval(None)
        .set_auto_claim_idle(Duration::from_secs(13))
        .set_batch_size(1)
        .set_shard_ownership(ShardOwnership::Owned);
    options.set_consumer_group(ConsumerGroup::new("us".to_string())).unwrap().set_batch_size(2);

    for options in [options.clone(), options] {
        assert_eq!(options.mode(), Ok(&ConsumerMode::LoadBalanced));
        assert_eq!(options.consumer_group().unwrap().name(), "us");
        assert_eq!(options.consumer_id().unwrap().id(), "me");
        assert_eq!(options.consumer_timeout(), Some(&Duration::from_secs(3)));
        assert_eq!(options.auto_stream_reset(), &AutoStreamReset::Earliest);
        assert_eq!(options.auto_commit(), &AutoCommit::Rolling);
        assert_eq!(options.auto_commit_delay(), &Duration::from_secs(11));
        assert_eq!(options.auto_commit_interval(), &Duration::from_secs(12));
        assert_eq!(options.auto_claim_interval(), None);
        assert_eq!(options.auto_claim_idle(), &Duration::from_secs(13));
        assert_eq!(options.batch_size(), &2);
        assert_eq!(options.shard_ownership(), &ShardOwnership::Owned);
    }
}

#[test]
fn pre_fetch_depends_on_mode_and_auto_commit() {
    let cases = [
        (ConsumerMode::RealTime, AutoCommit::Immediate, true),
        (ConsumerMode::RealTime, AutoCommit::Delayed, true),
        (ConsumerMode::RealTime, AutoCommit::Rolling, true),
        (ConsumerMode::RealTime, AutoCommit::Disabled, true),
        (ConsumerMode::Resumable, AutoCommit::Immediate, false),
        (ConsumerMode::Resumable, AutoCommit::Delayed, true),
        (ConsumerMode::Resumable, AutoCommit::Rolling, true),
        (ConsumerMode::Resumable, AutoCommit::Disabled, false),
        (ConsumerMode::LoadBalanced, AutoCommit::Immediate, false),
        (ConsumerMode::LoadBalanced, AutoCommit::Delayed, true),
        (ConsumerMode::LoadBalanced, AutoCommit::Rolling, true),
        (ConsumerMode::LoadBalanced, AutoCommit::Disabled, false),
    ];
    for (mode, auto_commit, expected) in cases {
        let mut options = RedisConsumerOptions::new(mode);
        options.set_auto_commit(auto_commit);
        assert_eq!(options.pre_fetch(), expected);
        let config = ConsumerConfig::from(&options);
        assert_eq!(config.pre_fetch, expected);
        assert_eq!(config.auto_ack, auto_commit == AutoCommit::Delayed);
        assert!(!config.auto_ack || config.pre_fetch);
    }
}

#[test]
fn the_config_takes_group_and_id_over() {
    let mut options = RedisConsumerOptions::default();
    let config = ConsumerConfig::from(&options);
    assert_eq!(config.group_id, None);
    assert_eq!(config.consumer_id, None);

    options.set_consumer_id(ConsumerId::new("me".to_string()));
    options.set_consumer_group(ConsumerGroup::new("us".to_string())).unwrap();
    let config = ConsumerConfig::from(&options);
    assert_eq!(config.group_id, Some(ConsumerGroup::new("us".to_string())));
    assert_eq!(config.consumer_id, Some(ConsumerId::new("me".to_string())));
}
