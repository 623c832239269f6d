use sea_streamer::text::append_decimal;
use sea_streamer::{
    PseudoRandomSharder, RedisProducerOptions, RoundRobinSharder, Sharder, SharderConfig, StreamKey,
};

fn key() -> StreamKey {
    StreamKey::new("stream".to_string())
}

#[test]
fn round_robin_goes_around() {
    let mut sharder = RoundRobinSharder::new(3);
    let shards: Vec<u64> = (0..7).map(|_| sharder.shard(&key(), b"x")).collect();
    assert_eq!(shards, [0, 1, 2, 0, 1, 2, 0]);
}

#[test]
fn round_robin_chooses_each_shard_once_per_round() {
    let mut sharder = RoundRobinSharder::new(16);
    for _ in 0..5 {
        sharder.shard(&key(), &[]);
    }
    let mut shards: Vec<u64> = (0..16).map(|_| sharder.shard(&key(), &[])).collect();
    shards.sort();
    let all: Vec<u64> = (0..16).collect();
    assert_eq!(shards, all);
}

#[test]
fn round_robin_goes_on_for_long() {
    let mut sharder = RoundRobinSharder::new(3).clone();
    for turn in 0..1_000_000u64 {
        assert_eq!(sharder.shard(&key(), &[]), turn % 3);
    }
    let mut sharder = RoundRobinSharder::new(u32::MAX);
    assert_eq!(sharder.shard(&key(), &[]), 0);
    assert_eq!(sharder.shard(&key(), &[]), 1);
}

#[test]
fn each_producer_gets_a_sharder_of_its_own() {
    let config = RoundRobinSharder::new(4);
    let mut first = config.init().0;
    assert_eq!(first.shard(&key(), &[]), 0);
    assert_eq!(first.shard(&key(), &[]), 1);
    let mut second = config.init().0;
    assert_eq!(second.shard(&key(), &[]), 0);
    assert_eq!(first.shard(&key(), &[]), 2);
}

#[test]
fn a_used_round_robin_sharder_passes_its_turn_on() {
    let mut config = RoundRobinSharder::new(4);
    config.shard(&key(), &[]);
    assert_eq!(config.init().0.shard(&key(), &[]), 1);
}

#[test]
fn pseudo_random_shards_are_in_range() {
    let mut sharder = PseudoRandomSharder::new(7).init().0;
    for _ in 0..1000 {
        assert!(sharder.shard(&key(), b"x") < 7);
    }
    assert_eq!(PseudoRandomSharder::new(1).shard(&key(), b"x"), 0);
}

#[test]
fn pseudo_random_shards_take_the_milliseconds_in_turn() {
    let sharder = PseudoRandomSharder::new(300);
    assert_eq!(sharder.shard_at(0), 0);
    assert_eq!(sharder.shard_at(299), 299);
    assert_eq!(sharder.shard_at(300), 0);
    assert_eq!(sharder.shard_at(999), 99);
    assert_eq!(sharder.shard_at(-1), 299);
    assert_eq!(sharder.clone().shard_at(1_700_000_000_123), 23);
    assert_eq!(PseudoRandomSharder::new(u64::MAX).shard_at(-1), u64::MAX - 1);
    assert_eq!(PseudoRandomSharder::new(1).shard_at(i128::MIN), 0);
}

#[test]
fn pseudo_random_shards_have_equal_parts_of_the_clock() {
    for num_shards in [3u64, 300, 2000] {
        let sharder = PseudoRandomSharder::new(num_shards);
        let mut chosen = vec![0; num_shards as usize];
        for millisecond in -(num_shards as i128)..3 * num_shards as i128 {
            chosen[sharder.shard_at(millisecond) as usize] += 1;
        }
        assert!(chosen.iter().all(|&times| times == 4));
    }
}

fn now_in_milliseconds() -> u64 {
    (time::OffsetDateTime::now_utc().unix_timestamp_nanos() / 1_000_000) as u64
}

#[test]
fn the_clock_chooses_among_all_shards() {
    let mut sharder = PseudoRandomSharder::new(u64::MAX);
    let before = now_in_milliseconds();
    let shard = sharder.shard(&key(), b"x");
    assert!(before <= shard && shard <= now_in_milliseconds());
}

#[test]
fn the_millisecond_part_tells_the_shard_of_a_divisor_of_a_thousand() {
    for num_shards in [1u64, 2, 5, 8, 10, 1000] {
        let sharder = PseudoRandomSharder::new(num_shards);
        for millisecond in [0i128, 1, 999, 1_000, 1_700_000_000_123, 1_700_000_000_987] {
            let part = (millisecond % 1000) as u64;
            assert_eq!(sharder.shard_at(millisecond), part % num_shards);
        }
    }
}

#[test]
fn the_millisecond_part_of_the_clock_tells_the_shard() {
    let mut sharder = PseudoRandomSharder::new(10);
    // a message may come at the turn of a millisecond, but not at every try
    let hit = (0..1000).any(|_| {
        let before = time::OffsetDateTime::now_utc().millisecond();
        let shard = sharder.shard(&key(), b"x");
        let after = time::OffsetDateTime::now_utc().millisecond();
        before == after && {
            assert_eq!(shard, before as u64 % 10);
            true
        }
    });
    assert!(hit);
}

#[test]
fn a_coarse_clock_reaches_every_shard() {
    for tick in [100i128, 1_000, 1_000_000] {
        let sharder = PseudoRandomSharder::new(10);
        let mut chosen = vec![0; 10];
        let start: i128 = 1_700_000_000_123;
        let mut instant = start * 1_000_000;
        while instant < (start + 20) * 1_000_000 {
            chosen[sharder.shard_at(instant / 1_000_000) as usize] += 1;
            instant += tick;
        }
        assert!(chosen.iter().all(|&times| times == 2 * 1_000_000 / tick));
    }
}

#[test]
fn without_shards_there_is_nothing_to_choose() {
    assert!(!RoundRobinSharder::new(0).can_shard());
    assert!(!PseudoRandomSharder::new(0).can_shard());
    assert!(RoundRobinSharder::new(1).init().0.can_shard());
    assert!(PseudoRandomSharder::new(1).init().0.can_shard());
}

#[test]
fn a_sharder_can_be_set_and_cleared() {
    let mut options = RedisProducerOptions::default();
    assert!(options.sharder().is_none());
    options.set_sharder(RoundRobinSharder::new(2));
    let copy = options.clone();
    for options in [&options, &copy] {
        let mut sharder = options.sharder().unwrap().init().0;
        let shards: Vec<u64> = (0..3).map(|_| sharder.shard(&key(), b"x")).collect();
        assert_eq!(shards, [0, 1, 0]);
    }
    options.clear_sharder().clear_sharder();
    assert!(options.sharder().is_none());
}

#[test]
fn decimal_numerals() {
    for (n, expected) in [
        (0, "#0"),
        (7, "#7"),
        (9, "#9"),
        (10, "#10"),
        (1234567890, "#1234567890"),
        (u64::MAX, "#18446744073709551615"),
    ] {
        let mut text = "#".to_string();
        append_decimal(&mut text, n);
        assert_eq!(text, expected);
    }
}
