//! Sharding: which part of a stream a message goes to.

use std::sync::Arc;

use time::OffsetDateTime;
use vstd::arithmetic::div_mod::*;
use vstd::prelude::*;

use crate::foreign;
use crate::message::StreamKey;

verus! {

/// Trait that sharding strategies should implement.
pub trait Sharder: Send {
    /// Whether there is any shard to choose. There is one, unless a sharder says otherwise.
    open spec fn placeable(&self) -> bool {
        true
    }

    /// Whether `shard` may be chosen for a message of these bytes to the stream of this name, if as
    /// many other messages come before it. Any may, unless a sharder says otherwise.
    open spec fn may_pick(
        &self,
        before: nat,
        stream_key: Seq<char>,
        bytes: Seq<u8>,
        shard: u64,
    ) -> bool {
        true
    }

    /// Tell whether there is any shard to choose. Without one no message can be placed.
    fn can_shard(&self) -> (placeable: bool)
        ensures
            placeable == self.placeable(),
    ;

    /// Return the determined shard id for the given message.
    /// This should be a *real quick* computation, otherwise this can become the bottleneck of
    /// streaming. Mutex, atomic or anything that can create contention will be disastrous.
    ///
    /// It will then be sent to the stream with key `STREAM_KEY:SHARD_ID`.
    /// The Redis Cluster will assign this shard to a particular node as the cluster scales.
    /// Different shards may or may not end up in the same slot, and thus may or may not end up in
    /// the same node.
    fn shard(&mut self, stream_key: &StreamKey, bytes: &[u8]) -> (shard: u64)
        requires
            old(self).placeable(),
        ensures
            old(self).may_pick(0, stream_key@, bytes@, shard),
            final(self).placeable(),
            forall|before: nat, later_key: Seq<char>, later_bytes: Seq<u8>, later_shard: u64|
                #[trigger] final(self).may_pick(before, later_key, later_bytes, later_shard)
                    ==> old(self).may_pick(before + 1, later_key, later_bytes, later_shard),
    ;
}

/// A sharder of any kind.
pub struct BoxedSharder(pub Box<dyn Sharder>);

/// Trait to instantiate new sharders.
pub trait SharderConfig: Send + Sync {
    /// Whether a fresh sharder has any shard to choose. It has one, unless said otherwise.
    open spec fn fresh_placeable(&self) -> bool {
        true
    }

    /// Whether a fresh sharder may choose `shard` for a message of these bytes to the stream of
    /// this name, if as many other messages come before it. It may choose any, unless said
    /// otherwise.
    open spec fn fresh_may_pick(
        &self,
        before: nat,
        stream_key: Seq<char>,
        bytes: Seq<u8>,
        shard: u64,
    ) -> bool {
        true
    }

    /// Each producer will create its own sharder.
    /// They should not have any shared state for the sake of concurrency.
    fn init(&self) -> (sharder: BoxedSharder)
        ensures
            sharder.0.placeable() == self.fresh_placeable(),
            forall|before: nat, stream_key: Seq<char>, bytes: Seq<u8>, shard: u64|
                #[trigger] sharder.0.may_pick(before, stream_key, bytes, shard)
                    == self.fresh_may_pick(before, stream_key, bytes, shard),
    ;
}

/// Whether there is a sharder if and only if there is a configuration, and the sharder does what
/// the configuration says of a fresh one.
pub open spec fn is_fresh(
    sharder: Option<BoxedSharder>,
    config: Option<Arc<dyn SharderConfig>>,
) -> bool {
    match (sharder, config) {
        (Some(sharder), Some(config)) => {
            &&& sharder.0.placeable() == config.fresh_placeable()
            &&& forall|before: nat, stream_key: Seq<char>, bytes: Seq<u8>, shard: u64|
                #[trigger] sharder.0.may_pick(before, stream_key, bytes, shard)
                    == config.fresh_may_pick(before, stream_key, bytes, shard)
        },
        (None, None) => true,
        _ => false,
    }
}

/// Whether there is a shared configuration, and it says of fresh sharders what `config` says.
pub open spec fn is_shared<S: SharderConfig>(
    shared: Option<Arc<dyn SharderConfig>>,
    config: S,
) -> bool {
    match shared {
        Some(shared) => {
            &&& shared.fresh_placeable() == config.fresh_placeable()
            &&& forall|before: nat, stream_key: Seq<char>, bytes: Seq<u8>, shard: u64|
                #[trigger] shared.fresh_may_pick(before, stream_key, bytes, shard)
                    == config.fresh_may_pick(before, stream_key, bytes, shard)
        },
        None => false,
    }
}

/// The shard of a number, where the shards take the numbers in turn.
pub open spec fn shard_of(num_shards: int, number: int) -> int {
    number % num_shards
}

/// The shard of a number is what is left of it when whole rounds through the shards are taken away.
pub proof fn law_shard_is_left_of_whole_rounds(num_shards: int, number: int)
    requires
        num_shards > 0,
    ensures
        0 <= shard_of(num_shards, number) < num_shards,
        number == num_shards * (number / num_shards) + shard_of(num_shards, number),
{
    lemma_fundamental_div_mod(number, num_shards);
    lemma_mod_bound(number, num_shards);
}

/// A fresh sharder is there if and only if there is a configuration, and it chooses as its
/// configuration says.
pub proof fn law_fresh_sharder_follows_its_configuration(
    sharder: Option<BoxedSharder>,
    config: Option<Arc<dyn SharderConfig>>,
    before: nat,
    stream_key: Seq<char>,
    bytes: Seq<u8>,
    shard: u64,
)
    requires
        is_fresh(sharder, config),
    ensures
        match config {
            Some(config) => sharder matches Some(sharder) && sharder.0.placeable()
                == config.fresh_placeable() && sharder.0.may_pick(before, stream_key, bytes, shard)
                == config.fresh_may_pick(before, stream_key, bytes, shard),
            None => sharder is None,
        },
{
}

/// A shared configuration makes the sharders that it made before it was shared.
pub proof fn law_shared_configuration_is_the_same<S: SharderConfig>(
    shared: Option<Arc<dyn SharderConfig>>,
    config: S,
    before: nat,
    stream_key: Seq<char>,
    bytes: Seq<u8>,
    shard: u64,
)
    requires
        is_shared(shared, config),
    ensures
        shared matches Some(shared) && shared.fresh_placeable() == config.fresh_placeable()
            && shared.fresh_may_pick(before, stream_key, bytes, shard) == config.fresh_may_pick(
            before,
            stream_key,
            bytes,
            shard,
        ),
{
}

/// Whether `shard` has one of as many numbers in a row as there are shards, from `first` on.
pub open spec fn has_number(num_shards: int, first: int, shard: int) -> bool {
    exists|i: nat| i < num_shards && #[trigger] shard_of(num_shards, first + i) == shard
}

/// Of as many numbers in a row as there are shards, each shard has exactly one.
proof fn lemma_each_shard_has_one(num_shards: int, first: int)
    requires
        num_shards > 0,
    ensures
        forall|i: nat, j: nat|
            i < j < num_shards ==> #[trigger] shard_of(num_shards, first + i)
                != #[trigger] shard_of(num_shards, first + j),
        forall|shard: int|
            0 <= shard < num_shards ==> #[trigger] has_number(num_shards, first, shard),
{
    let n = num_shards;
    assert forall|i: nat, j: nat| i < j < n implies #[trigger] shard_of(n, first + i)
        != #[trigger] shard_of(n, first + j) by {
        if (first + i) % n == (first + j) % n {
            lemma_fundamental_div_mod(first + i, n);
            lemma_fundamental_div_mod(first + j, n);
            let q = (first + j) / n - (first + i) / n;
            assert(j - i == n * q) by (nonlinear_arith)
                requires
                    first + i == n * ((first + i) / n) + (first + i) % n,
                    first + j == n * ((first + j) / n) + (first + j) % n,
                    (first + i) % n == (first + j) % n,
                    q == (first + j) / n - (first + i) / n,
            ;
            assert(false) by (nonlinear_arith)
                requires
                    0 < j - i < n,
                    j - i == n * q,
            ;
        }
    }
    assert forall|shard: int| 0 <= shard < n implies #[trigger] has_number(n, first, shard) by {
        let i = ((shard - first) % n) as nat;
        lemma_mod_bound(shard - first, n);
        lemma_add_mod_noop_right(first, shard - first, n);
        lemma_small_mod(shard as nat, n as nat);
        assert(shard_of(n, first + i) == shard);
    }
}

/// How many of as many numbers in a row a shard has, from `first` on.
pub open spec fn share_of(num_shards: int, first: int, count: nat, shard: int) -> nat
    decreases count,
{
    if count == 0 {
        0
    } else {
        share_of(num_shards, first, (count - 1) as nat, shard) + if shard_of(
            num_shards,
            first + (count - 1) as nat,
        ) == shard {
            1nat
        } else {
            0
        }
    }
}

/// Numbers in a row can be counted in two parts.
proof fn lemma_share_of_parts(num_shards: int, first: int, a: nat, b: nat, shard: int)
    ensures
        share_of(num_shards, first, a + b, shard) == share_of(num_shards, first, a, shard)
            + share_of(num_shards, first + a, b, shard),
    decreases b,
{
    if b > 0 {
        lemma_share_of_parts(num_shards, first, a, (b - 1) as nat, shard);
        assert(first + (a + b - 1) as nat == (first + a) + (b - 1) as nat);
    }
}

/// Of at most as many numbers in a row as there are shards, a shard has one or none.
proof fn lemma_share_of_round(num_shards: int, first: int, count: nat, shard: int)
    requires
        num_shards > 0,
        count <= num_shards,
    ensures
        share_of(num_shards, first, count, shard) == if exists|i: nat|
            i < count && #[trigger] shard_of(num_shards, first + i) == shard {
            1nat
        } else {
            0
        },
    decreases count,
{
    if count > 0 {
        lemma_share_of_round(num_shards, first, (count - 1) as nat, shard);
        lemma_each_shard_has_one(num_shards, first);
        let last = (count - 1) as nat;
        assert(forall|i: nat|
            i < last ==> #[trigger] shard_of(num_shards, first + i) != shard_of(
                num_shards,
                first + last,
            ));
        if shard_of(num_shards, first + last) != shard {
            assert forall|i: nat|
                i < count && #[trigger] shard_of(num_shards, first + i) == shard implies i
                < last by {}
        }
    }
}

/// Shard streams pseudo-randomly but fairly. Basically a `rand() % num_shards`.
#[derive(Debug)]
pub struct PseudoRandomSharder {
    num_shards: u64,
}

/// The whole milliseconds since the epoch at an instant, which is given in nanoseconds.
pub open spec fn millisecond_of(instant: int) -> int {
    instant / 1_000_000
}

/// The milliseconds within the second of an instant.
pub open spec fn millisecond_part(instant: int) -> int {
    (instant % 1_000_000_000) / 1_000_000
}

impl Clone for PseudoRandomSharder {
    fn clone(&self) -> (copy: Self)
        ensures
            copy == *self,
    {
        PseudoRandomSharder { num_shards: self.num_shards }
    }
}

impl PseudoRandomSharder {
    /// The number of shards to choose from.
    pub closed spec fn num_shards(&self) -> u64 {
        self.num_shards
    }

    pub fn new(num_shards: u64) -> (sharder: Self)
        ensures
            sharder.num_shards() == num_shards,
    {
        Self { num_shards }
    }

    /// The shard of a message that comes in the given millisecond since the epoch. The shards take
    /// the milliseconds in turn, so each has its equal part of the clock.
    pub fn shard_at(&self, millisecond: i128) -> (shard: u64)
        requires
            self.num_shards() != 0,
        ensures
            shard == shard_of(self.num_shards() as int, millisecond as int),
            shard == millisecond as int % self.num_shards() as int,
            shard < self.num_shards(),
    {
        let num_shards: i128 = self.num_shards as i128;
        proof {
            lemma_mod_bound(millisecond as int, num_shards as int);
        }
        let shard: i128 = millisecond.checked_rem_euclid(num_shards).unwrap();
        shard as u64
    }
}

impl SharderConfig for PseudoRandomSharder {
    open spec fn fresh_placeable(&self) -> bool {
        self.placeable()
    }

    open spec fn fresh_may_pick(
        &self,
        before: nat,
        stream_key: Seq<char>,
        bytes: Seq<u8>,
        shard: u64,
    ) -> bool {
        self.may_pick(before, stream_key, bytes, shard)
    }

    fn init(&self) -> (sharder: BoxedSharder) {
        BoxedSharder(Box::new(self.clone()))
    }
}

impl Sharder for PseudoRandomSharder {
    open spec fn placeable(&self) -> bool {
        self.num_shards() != 0
    }

    open spec fn may_pick(
        &self,
        before: nat,
        stream_key: Seq<char>,
        bytes: Seq<u8>,
        shard: u64,
    ) -> bool {
        shard < self.num_shards()
    }

    fn can_shard(&self) -> (placeable: bool) {
        self.num_shards != 0
    }

    fn shard(&mut self, _stream_key: &StreamKey, _bytes: &[u8]) -> (shard: u64)
        ensures
            exists|now: OffsetDateTime|
                shard == shard_of(
                    old(self).num_shards() as int,
                    millisecond_of(#[trigger] foreign::instant_of(now) as int),
                ),
            exists|now: OffsetDateTime|
                shard == (#[trigger] foreign::instant_of(now) as int / 1_000_000)
                    % old(self).num_shards() as int,
            *final(self) == *old(self),
    {
        let now = OffsetDateTime::now_utc();
        let instant: i128 = now.unix_timestamp_nanos();
        let millisecond: i128 = instant.checked_div_euclid(1_000_000).unwrap();
        proof {
            assert(millisecond == millisecond_of(foreign::instant_of(now) as int));
            lemma_mod_bound(millisecond as int, self.num_shards as int);
        }
        self.shard_at(millisecond)
    }
}

/// A pseudo-random sharder can place messages if and only if it has shards, and may choose any of
/// them for any message, a fresh one as much as one that has been in use.
pub proof fn law_pseudo_random_may_choose_any(
    sharder: PseudoRandomSharder,
    before: nat,
    stream_key: Seq<char>,
    bytes: Seq<u8>,
    shard: u64,
)
    ensures
        sharder.placeable() <==> sharder.num_shards() != 0,
        sharder.fresh_placeable() <==> sharder.num_shards() != 0,
        sharder.may_pick(before, stream_key, bytes, shard) <==> shard < sharder.num_shards(),
        sharder.fresh_may_pick(before, stream_key, bytes, shard) <==> shard < sharder.num_shards(),
{
}

/// A millisecond is the one that an instant falls in: it has begun by then, and the next one has
/// not.
pub proof fn law_millisecond_holds_the_instant(instant: int)
    ensures
        millisecond_of(instant) * 1_000_000 <= instant,
        instant < (millisecond_of(instant) + 1) * 1_000_000,
{
}

/// Where the number of shards divides a thousand, the milliseconds within the second are enough to
/// tell the shard.
pub proof fn law_pseudo_random_takes_the_millisecond_part(num_shards: u64, instant: int)
    requires
        num_shards != 0,
        1000int % num_shards as int == 0,
    ensures
        shard_of(num_shards as int, millisecond_of(instant)) == shard_of(
            num_shards as int,
            millisecond_part(instant),
        ),
        0 <= millisecond_part(instant) < 1000,
{
    let n = num_shards as int;
    assert(millisecond_part(instant) == millisecond_of(instant) % 1000);
    lemma_fundamental_div_mod(1000, n);
    assert(1000int / n > 0) by (nonlinear_arith)
        requires
            1000 == n * (1000int / n),
            n > 0,
    ;
    lemma_mod_mod(millisecond_of(instant), n, 1000int / n);
}

/// Pseudo-random sharding is fair: of as many milliseconds in a row as there are shards, each shard
/// has exactly one. So every shard can be chosen, and none has a larger part of the clock than
/// another.
pub proof fn law_pseudo_random_is_fair(num_shards: u64, millisecond: int)
    requires
        num_shards != 0,
    ensures
        forall|i: nat, j: nat|
            i < j < num_shards ==> #[trigger] shard_of(num_shards as int, millisecond + i)
                != #[trigger] shard_of(num_shards as int, millisecond + j),
        forall|shard: int|
            0 <= shard < num_shards ==> #[trigger] has_number(
                num_shards as int,
                millisecond,
                shard,
            ),
{
    lemma_each_shard_has_one(num_shards as int, millisecond);
}

/// In the long run each shard has as many milliseconds as any other: of as many rounds, each of as
/// many milliseconds as there are shards, every shard has one millisecond per round.
pub proof fn law_pseudo_random_parts_are_equal(
    num_shards: u64,
    millisecond: int,
    rounds: nat,
    shard: u64,
)
    requires
        shard < num_shards,
    ensures
        share_of(num_shards as int, millisecond, rounds * num_shards as nat, shard as int)
            == rounds,
    decreases rounds,
{
    let n = num_shards as nat;
    if rounds > 0 {
        let fewer = (rounds - 1) as nat;
        law_pseudo_random_parts_are_equal(num_shards, millisecond, fewer, shard);
        assert(rounds * n == fewer * n + n) by (nonlinear_arith)
            requires
                rounds == fewer + 1,
        ;
        let first = millisecond + fewer * n;
        lemma_share_of_parts(n as int, millisecond, fewer * n, n, shard as int);
        lemma_each_shard_has_one(n as int, first);
        assert(has_number(n as int, first, shard as int));
        lemma_share_of_round(n as int, first, n, shard as int);
    } else {
        assert(rounds * n == 0) by (nonlinear_arith)
            requires
                rounds == 0,
        ;
    }
}

/// How many of as many messages go to `shard`, if the first comes at `instant` and each further one
/// comes `tick` nanoseconds after the one before it.
pub open spec fn messages_to(
    num_shards: int,
    instant: int,
    tick: int,
    messages: nat,
    shard: int,
) -> nat
    decreases messages,
{
    if messages == 0 {
        0
    } else {
        let last = (messages - 1) as nat;
        messages_to(num_shards, instant, tick, last, shard) + if shard_of(
            num_shards,
            millisecond_of(instant + last * tick),
        ) == shard {
            1nat
        } else {
            0
        }
    }
}

/// Messages that come at a steady pace can be counted in two parts.
proof fn lemma_messages_in_parts(
    num_shards: int,
    instant: int,
    tick: int,
    a: nat,
    b: nat,
    shard: int,
)
    ensures
        messages_to(num_shards, instant, tick, a + b, shard) == messages_to(
            num_shards,
            instant,
            tick,
            a,
            shard,
        ) + messages_to(num_shards, instant + a * tick, tick, b, shard),
    decreases b,
{
    if b > 0 {
        let last = (b - 1) as nat;
        lemma_messages_in_parts(num_shards, instant, tick, a, last, shard);
        assert(instant + (a + last) * tick == (instant + a * tick) + last * tick)
            by (nonlinear_arith);
        assert((a + b - 1) as nat == a + last);
    }
}

/// All messages of one millisecond go to the shard of that millisecond.
proof fn lemma_messages_of_millisecond(
    num_shards: int,
    millisecond: int,
    tick: int,
    messages: nat,
    shard: int,
)
    requires
        tick > 0,
        messages * tick <= 1_000_000,
    ensures
        messages_to(num_shards, millisecond * 1_000_000, tick, messages, shard) == if shard_of(
            num_shards,
            millisecond,
        ) == shard {
            messages
        } else {
            0
        },
    decreases messages,
{
    if messages > 0 {
        let last = (messages - 1) as nat;
        assert(0 <= last * tick < messages * tick) by (nonlinear_arith)
            requires
                tick > 0,
                messages == last + 1,
        ;
        lemma_messages_of_millisecond(num_shards, millisecond, tick, last, shard);
        assert(millisecond_of(millisecond * 1_000_000 + last * tick) == millisecond);
    }
}

/// Over whole milliseconds, a shard gets all messages of each millisecond of its own.
proof fn lemma_messages_of_milliseconds(
    num_shards: int,
    millisecond: int,
    tick: int,
    pace: nat,
    count: nat,
    shard: int,
)
    requires
        tick > 0,
        pace * tick == 1_000_000,
    ensures
        messages_to(num_shards, millisecond * 1_000_000, tick, count * pace, shard) == share_of(
            num_shards,
            millisecond,
            count,
            shard,
        ) * pace,
    decreases count,
{
    if count > 0 {
        let fewer = (count - 1) as nat;
        let next = millisecond + fewer;
        lemma_messages_of_milliseconds(num_shards, millisecond, tick, pace, fewer, shard);
        assert(count * pace == fewer * pace + pace) by (nonlinear_arith)
            requires
                count == fewer + 1,
        ;
        assert(millisecond * 1_000_000 + (fewer * pace) * tick == next * 1_000_000)
            by (nonlinear_arith)
            requires
                pace * tick == 1_000_000,
                next == millisecond + fewer,
        ;
        let instant = millisecond * 1_000_000;
        lemma_messages_in_parts(num_shards, instant, tick, fewer * pace, pace, shard);
        lemma_messages_of_millisecond(num_shards, next, tick, pace, shard);
        let before = share_of(num_shards, millisecond, fewer, shard);
        assert((before + 1) * pace == before * pace + pace) by (nonlinear_arith);
    } else {
        assert(count * pace == 0) by (nonlinear_arith)
            requires
                count == 0,
        ;
        assert(share_of(num_shards, millisecond, count, shard) * pace == 0) by (nonlinear_arith)
            requires
                share_of(num_shards, millisecond, count, shard) == 0,
        ;
    }
}

/// Messages at a steady pace are spread evenly: if a message comes at every tick of a clock whose
/// ticks divide a millisecond, then over as many rounds, each of as many milliseconds as there are
/// shards, every shard gets the messages of one millisecond per round. A clock may be as coarse as
/// one tick in a millisecond.
pub proof fn law_pseudo_random_spreads_evenly(
    num_shards: u64,
    millisecond: int,
    tick: int,
    pace: nat,
    rounds: nat,
    shard: u64,
)
    requires
        shard < num_shards,
        tick > 0,
        pace * tick == 1_000_000,
    ensures
        messages_to(
            num_shards as int,
            millisecond * 1_000_000,
            tick,
            (rounds * num_shards as nat) * pace,
            shard as int,
        ) == rounds * pace,
{
    let count = rounds * num_shards as nat;
    law_pseudo_random_parts_are_equal(num_shards, millisecond, rounds, shard);
    lemma_messages_of_milliseconds(
        num_shards as int,
        millisecond,
        tick,
        pace,
        count,
        shard as int,
    );
}

/// Shard streams by round-robin.
#[derive(Debug)]
pub struct RoundRobinSharder {
    num_shards: u32,
    state: u32,
}

impl Clone for RoundRobinSharder {
    fn clone(&self) -> (copy: Self)
        ensures
            copy == *self,
    {
        RoundRobinSharder { num_shards: self.num_shards, state: self.state }
    }
}

impl RoundRobinSharder {
    /// The number of shards to choose from.
    pub closed spec fn num_shards(&self) -> u32 {
        self.num_shards
    }

    /// Whose turn it is.
    pub closed spec fn turn(&self) -> u32 {
        self.state
    }

    pub fn new(num_shards: u32) -> (sharder: Self)
        ensures
            sharder.num_shards() == num_shards,
            sharder.turn() == 0,
    {
        Self { num_shards, state: 0 }
    }
}

impl SharderConfig for RoundRobinSharder {
    open spec fn fresh_placeable(&self) -> bool {
        self.placeable()
    }

    open spec fn fresh_may_pick(
        &self,
        before: nat,
        stream_key: Seq<char>,
        bytes: Seq<u8>,
        shard: u64,
    ) -> bool {
        self.may_pick(before, stream_key, bytes, shard)
    }

    fn init(&self) -> (sharder: BoxedSharder) {
        BoxedSharder(Box::new(self.clone()))
    }
}

impl Sharder for RoundRobinSharder {
    open spec fn placeable(&self) -> bool {
        self.num_shards() != 0
    }

    open spec fn may_pick(
        &self,
        before: nat,
        stream_key: Seq<char>,
        bytes: Seq<u8>,
        shard: u64,
    ) -> bool {
        shard == shard_of(self.num_shards() as int, self.turn() + before)
    }

    fn can_shard(&self) -> (placeable: bool) {
        self.num_shards != 0
    }

    fn shard(&mut self, _stream_key: &StreamKey, _bytes: &[u8]) -> (shard: u64)
        ensures
            shard == shard_of(old(self).num_shards() as int, old(self).turn() as int),
            shard == old(self).turn() as int % old(self).num_shards() as int,
            final(self).turn() == shard_of(old(self).num_shards() as int, old(self).turn() + 1),
            final(self).turn() == (if shard + 1 == old(self).num_shards() {
                0
            } else {
                shard + 1
            }),
            final(self).num_shards() == old(self).num_shards(),
    {
        let ghost n = self.num_shards as int;
        let ghost turn = self.state as int;
        let r: u32 = self.state % self.num_shards;
        // the turn stays below the number of shards, so it never outgrows a `u32`
        self.state = if r == self.num_shards - 1 {
            0
        } else {
            r + 1
        };
        proof {
            lemma_add_mod_noop_right(1, turn, n);
            if r + 1 < n {
                lemma_small_mod((r + 1) as nat, n as nat);
            } else {
                lemma_mod_self_0(n);
            }
            assert forall|before: nat| #[trigger] shard_of(n, self.state + before) == shard_of(
                n,
                turn + (before + 1),
            ) by {
                lemma_add_mod_noop_right(before as int, turn + 1, n);
            }
        }
        r as u64
    }
}

/// A round-robin sharder can place messages if and only if it has shards. It starts with the shard
/// whose turn it is, and chooses them one after the other, the first after the last. Neither the
/// streams nor the payloads of the messages matter.
pub proof fn law_round_robin_takes_the_next(
    sharder: RoundRobinSharder,
    before: nat,
    stream_key: Seq<char>,
    bytes: Seq<u8>,
    shard: u64,
    next_key: Seq<char>,
    next_bytes: Seq<u8>,
    next: u64,
)
    requires
        sharder.num_shards() != 0,
        sharder.may_pick(before, stream_key, bytes, shard),
        sharder.may_pick(before + 1, next_key, next_bytes, next),
    ensures
        shard < sharder.num_shards(),
        next == (if shard + 1 == sharder.num_shards() {
            0
        } else {
            shard + 1
        }),
        before == 0 && sharder.turn() < sharder.num_shards() ==> shard == sharder.turn(),
{
    let n = sharder.num_shards() as int;
    let number = sharder.turn() + before;
    lemma_mod_bound(number, n);
    lemma_add_mod_noop_right(1, number, n);
    if shard + 1 < n {
        lemma_small_mod((shard + 1) as nat, n as nat);
    } else {
        lemma_mod_self_0(n);
    }
    if sharder.turn() < n {
        lemma_small_mod(sharder.turn() as nat, n as nat);
    }
}

/// A round-robin sharder has one choice for each message, and a fresh one has the same.
pub proof fn law_round_robin_has_one_choice(
    sharder: RoundRobinSharder,
    before: nat,
    stream_key: Seq<char>,
    bytes: Seq<u8>,
    shard: u64,
)
    ensures
        sharder.placeable() <==> sharder.num_shards() != 0,
        sharder.fresh_placeable() <==> sharder.num_shards() != 0,
        sharder.may_pick(before, stream_key, bytes, shard) <==> shard == (sharder.turn() + before)
            % sharder.num_shards() as int,
        sharder.fresh_may_pick(before, stream_key, bytes, shard) <==> shard == (sharder.turn()
            + before) % sharder.num_shards() as int,
{
}

/// The turn of a round-robin sharder after as many more choices.
pub open spec fn turn_after(num_shards: int, turn: int, choices: nat) -> int
    decreases choices,
{
    if choices == 0 {
        turn
    } else {
        shard_of(num_shards, turn_after(num_shards, turn, (choices - 1) as nat) + 1)
    }
}

/// However many choices have been made, the next one goes on from them: the shards are chosen one
/// after the other, and after the last comes the first.
pub proof fn law_round_robin_goes_around(num_shards: u32, turn: u32, choices: nat)
    requires
        num_shards != 0,
    ensures
        shard_of(num_shards as int, turn_after(num_shards as int, turn as int, choices))
            == shard_of(num_shards as int, turn + choices),
    decreases choices,
{
    if choices > 0 {
        let n = num_shards as int;
        let fewer = (choices - 1) as nat;
        law_round_robin_goes_around(num_shards, turn, fewer);
        lemma_mod_twice(turn_after(n, turn as int, fewer) + 1, n);
        lemma_add_mod_noop_right(1, turn_after(n, turn as int, fewer), n);
        lemma_add_mod_noop_right(1, turn + fewer, n);
    }
}

/// Whether `shard` is among as many next choices as there are shards.
pub open spec fn is_chosen(num_shards: int, turn: int, shard: int) -> bool {
    exists|i: nat|
        i < num_shards && #[trigger] shard_of(num_shards, turn_after(num_shards, turn, i)) == shard
}

/// Round-robin is fair: of as many choices in a row as there are shards, no two are the same, so
/// each shard is chosen once.
pub proof fn law_round_robin_is_fair(num_shards: u32, turn: u32)
    requires
        num_shards != 0,
    ensures
        forall|i: nat, j: nat|
            i < j < num_shards ==> #[trigger] shard_of(
                num_shards as int,
                turn_after(num_shards as int, turn as int, i),
            ) != #[trigger] shard_of(
                num_shards as int,
                turn_after(num_shards as int, turn as int, j),
            ),
        forall|shard: int|
            0 <= shard < num_shards ==> #[trigger] is_chosen(num_shards as int, turn as int, shard),
{
    let n = num_shards as int;
    lemma_each_shard_has_one(n, turn as int);
    assert forall|i: nat| #[trigger]
        shard_of(n, turn_after(n, turn as int, i)) == shard_of(n, turn + i) by {
        law_round_robin_goes_around(num_shards, turn, i);
    }
    assert forall|shard: int| 0 <= shard < n implies #[trigger] is_chosen(
        n,
        turn as int,
        shard,
    ) by {
        assert(has_number(n, turn as int, shard));
        let i = choose|i: nat| i < num_shards && #[trigger] shard_of(n, turn + i) == shard;
        assert(shard_of(n, turn_after(n, turn as int, i)) == shard);
    }
}

} // verus!
