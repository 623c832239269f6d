//! What holds of the task behind a producer over any course of events.

use std::sync::Arc;

use flume::Sender;
use vstd::arithmetic::power2::*;
use vstd::prelude::*;
use vstd::utf8::*;

use crate::dispatch;
use crate::dispatch::{Effect, Event, FailureKind, Parcel, Phase, Route, MAX_RETRY};
use crate::error::{RedisErr, RedisResult, StreamErr};
use crate::message::{Header, Receipt, SequenceNo, Timestamp};
use crate::producer::Request;
use crate::sharder;
use crate::sharder::{BoxedSharder, RoundRobinSharder, SharderConfig};
use crate::step_laws;
use crate::text;

verus! {

/// The phase of the task after a course of events.
pub open spec fn phase_after(events: Seq<Event>) -> Phase
    decreases events.len(),
{
    if events.len() == 0 {
        Phase::Receiving
    } else {
        dispatch::transition(phase_after(events.drop_last()), events.last()).0
    }
}

/// Whether a course of events can happen: each one in a phase that it fits.
pub open spec fn can_happen(events: Seq<Event>) -> bool
    decreases events.len(),
{
    events.len() == 0 || {
        &&& can_happen(events.drop_last())
        &&& dispatch::fits(phase_after(events.drop_last()), events.last())
    }
}

/// Where the requests of a course of events want their answers.
pub open spec fn requested(events: Seq<Event>) -> Seq<Sender<RedisResult<Receipt>>>
    decreases events.len(),
{
    if events.len() == 0 {
        seq![]
    } else {
        match events.last() {
            Event::Requested { request, .. } => requested(events.drop_last()).push(request.receipt),
            _ => requested(events.drop_last()),
        }
    }
}

/// Where answers have gone in a course of events.
pub open spec fn answered(events: Seq<Event>) -> Seq<Sender<RedisResult<Receipt>>>
    decreases events.len(),
{
    if events.len() == 0 {
        seq![]
    } else {
        match dispatch::transition(phase_after(events.drop_last()), events.last()).1 {
            Effect::Reply { receipt, .. } => answered(events.drop_last()).push(receipt),
            Effect::Fail { receipt } => answered(events.drop_last()).push(receipt),
            _ => answered(events.drop_last()),
        }
    }
}

/// The parcel that the task has in hand in a phase.
pub open spec fn in_hand(phase: Phase) -> Option<Parcel> {
    match phase {
        Phase::Connecting(parcel) => Some(parcel),
        Phase::Sending(parcel) => Some(parcel),
        _ => None,
    }
}

/// Requests are answered in the order in which they come, each once and before the next one is
/// taken. Only a task that has ended may owe an answer, and then only the last one.
pub proof fn law_answers_follow_requests(events: Seq<Event>)
    requires
        can_happen(events),
    ensures
        match in_hand(phase_after(events)) {
            Some(parcel) => requested(events) == answered(events).push(parcel.receipt),
            None => if phase_after(events) is Receiving {
                requested(events) == answered(events)
            } else {
                ||| requested(events) == answered(events)
                ||| requested(events).len() == answered(events).len() + 1 && requested(
                    events,
                ).drop_last() == answered(events)
            },
        },
    decreases events.len(),
{
    if events.len() > 0 {
        law_answers_follow_requests(events.drop_last());
        assert(forall|s: Seq<Sender<RedisResult<Receipt>>>, x: Sender<RedisResult<Receipt>>|
            #[trigger] s.push(x).drop_last() =~= s);
    }
}

/// A flush: by the time that the signal is answered, and it is answered at once, everything
/// requested before it has been answered.
pub proof fn law_flush_waits_for_all(
    events: Seq<Event>,
    request: Request,
    now: Timestamp,
    route: Route,
)
    requires
        can_happen(events.push(Event::Requested { request, now, route })),
        dispatch::is_signal(request),
    ensures
        requested(events) == answered(events),
        dispatch::transition(phase_after(events), Event::Requested { request, now, route }) == (
            Phase::Receiving,
            Effect::Reply {
                receipt: request.receipt,
                result: Ok(
                    Header {
                        stream_key: request.stream_key,
                        shard: 0,
                        sequence: 0,
                        timestamp: now,
                    },
                ),
            },
        ),
{
    assert(events.push(Event::Requested { request, now, route }).drop_last() =~= events);
    law_answers_follow_requests(events);
}

/// The parcel that was made of the last request of a course of events.
pub open spec fn last_parcel(events: Seq<Event>) -> Option<Parcel>
    decreases events.len(),
{
    if events.len() == 0 {
        None
    } else {
        match events.last() {
            Event::Requested { request, route: Route::Whole, .. } => Some(
                dispatch::parcel(request, None),
            ),
            Event::Requested { request, route: Route::Shard(shard), .. } => Some(
                dispatch::parcel(request, Some(shard)),
            ),
            Event::Requested { .. } => None,
            _ => last_parcel(events.drop_last()),
        }
    }
}

/// How many times the last request of a course of events was refused.
pub open spec fn refusals(events: Seq<Event>) -> nat
    decreases events.len(),
{
    if events.len() == 0 {
        0
    } else {
        match events.last() {
            Event::Requested { .. } => 0,
            Event::Refused { .. } => refusals(events.drop_last()) + 1,
            _ => refusals(events.drop_last()),
        }
    }
}

/// Whether a refusal asks for patience.
pub open spec fn is_plea(kind: FailureKind) -> bool {
    kind == FailureKind::Ask || kind == FailureKind::TryAgain || kind == FailureKind::ClusterDown
        || kind == FailureKind::MasterDown
}

/// How many times the refusals of the last request of a course of events asked for patience.
pub open spec fn pleas(events: Seq<Event>) -> nat
    decreases events.len(),
{
    if events.len() == 0 {
        0
    } else {
        match events.last() {
            Event::Requested { .. } => 0,
            Event::Refused { kind, .. } => pleas(events.drop_last()) + if is_plea(kind) {
                1nat
            } else {
                0
            },
            _ => pleas(events.drop_last()),
        }
    }
}

/// What is in hand is what was requested last: through all retries the key, the shard, the command
/// and the receipt stay as they were made of that request. The refusals are counted, and those that
/// ask for patience on their own. There are fewer than would make the task give up.
pub proof fn law_parcel_stays_the_same(events: Seq<Event>)
    requires
        can_happen(events),
        in_hand(phase_after(events)) is Some,
    ensures
        ({
            let parcel = in_hand(phase_after(events))->0;
            &&& last_parcel(events) == Some(Parcel { retried: 0, asked: 0, ..parcel })
            &&& parcel.retried == refusals(events)
            &&& parcel.asked == pleas(events)
            &&& parcel.asked <= parcel.retried < MAX_RETRY
        }),
    decreases events.len(),
{
    if events.len() > 0 && in_hand(phase_after(events.drop_last())) is Some {
        law_parcel_stays_the_same(events.drop_last());
    }
}

/// The refusal after the last retry ends the task, whatever it was refused for.
pub proof fn law_gives_up(events: Seq<Event>)
    requires
        can_happen(events),
        events.len() > 0,
        events.last() is Refused,
        refusals(events) == MAX_RETRY,
    ensures
        dispatch::transition(phase_after(events.drop_last()), events.last()) == (
            Phase::Stopped,
            Effect::Panic(dispatch::Abort::RetriesExhausted),
        ),
{
    law_parcel_stays_the_same(events.drop_last());
}

/// Where a refusal asks for patience and is not the last one that is taken, the wait grows with how
/// often that request was asked for patience before, and with nothing else.
pub proof fn law_backoff_counts_pleas(events: Seq<Event>)
    requires
        can_happen(events),
        events.len() > 0,
        events.last() matches Event::Refused { kind, .. } && is_plea(kind),
        refusals(events) < MAX_RETRY,
    ensures
        dispatch::transition(phase_after(events.drop_last()), events.last()).1 == (
        Effect::Backoff { secs: dispatch::backoff_secs(pleas(events.drop_last())) }),
        phase_after(events) is Connecting,
{
    law_parcel_stays_the_same(events.drop_last());
}

/// The task ends only when no further request can come, when the cluster fails for good, or when it
/// has to panic.
pub proof fn law_ends_for_a_reason(events: Seq<Event>)
    requires
        can_happen(events),
        events.len() > 0,
        phase_after(events) is Stopped,
    ensures
        ({
            let effect = dispatch::transition(phase_after(events.drop_last()), events.last()).1;
            ||| events.last() is Closed
            ||| effect is Panic
            ||| events.last() matches Event::NotConnected(error) && !dispatch::is_passing(error)
                && effect == (Effect::Stop { error })
        }),
{
}

/// The backoff starts at a second, doubles six times and then stays at 64 seconds.
pub proof fn law_backoff_doubles(asked: nat)
    ensures
        dispatch::backoff_secs(0) == 1,
        asked < 6 ==> dispatch::backoff_secs(asked + 1) == 2 * dispatch::backoff_secs(asked),
        asked >= 6 ==> dispatch::backoff_secs(asked) == 64,
        1 <= dispatch::backoff_secs(asked) <= 64,
{
    lemma2_to64();
}

/// Different shards have different keys, of whatever streams they are.
pub proof fn law_shard_keys_are_distinct(
    stream_1: Seq<char>,
    shard_1: u64,
    stream_2: Seq<char>,
    shard_2: u64,
)
    requires
        dispatch::redis_key(stream_1, Some(shard_1)) == dispatch::redis_key(
            stream_2,
            Some(shard_2),
        ),
    ensures
        stream_1 == stream_2,
        shard_1 == shard_2,
{
    let key = dispatch::redis_key(stream_1, Some(shard_1));
    text::lemma_decimal_digits(shard_1 as nat);
    text::lemma_decimal_digits(shard_2 as nat);
    assert(key.len() == stream_1.len() + 1 + text::decimal(shard_1 as nat).len());
    assert(key.len() == stream_2.len() + 1 + text::decimal(shard_2 as nat).len());
    assert(key[stream_1.len() as int] == ':');
    assert(key[stream_2.len() as int] == ':');
    if stream_1.len() < stream_2.len() {
        let at = stream_2.len() - stream_1.len() - 1;
        assert(key[stream_2.len() as int] == text::decimal(shard_1 as nat)[at]);
    } else if stream_2.len() < stream_1.len() {
        let at = stream_1.len() - stream_2.len() - 1;
        assert(key[stream_1.len() as int] == text::decimal(shard_2 as nat)[at]);
    } else {
        let n = stream_1.len() as int;
        assert(stream_1 =~= key.subrange(0, n));
        assert(stream_2 =~= key.subrange(0, n));
        assert(text::decimal(shard_1 as nat) =~= key.subrange(n + 1, key.len() as int));
        assert(text::decimal(shard_2 as nat) =~= key.subrange(n + 1, key.len() as int));
        text::lemma_decimal_injective(shard_1 as nat, shard_2 as nat);
    }
}

/// What the task does about the last of a course of events.
pub open spec fn effect_of(events: Seq<Event>) -> Effect {
    dispatch::transition(phase_after(events.drop_last()), events.last()).1
}

/// The last request of a course of events, and the route that was chosen for it.
pub open spec fn last_request(events: Seq<Event>) -> Option<(Request, Route)>
    decreases events.len(),
{
    if events.len() == 0 {
        None
    } else {
        match events.last() {
            Event::Requested { request, route, .. } => Some((request, route)),
            _ => last_request(events.drop_last()),
        }
    }
}

/// Whatever has happened since a message was requested, what the task has in hand is that message:
/// its command appends its payload to the key that the connection is made for, which is the name of
/// its stream, and for a shard of it the name, a colon and the number of the shard.
pub proof fn law_command_is_for_the_last_request(events: Seq<Event>)
    requires
        can_happen(events),
        in_hand(phase_after(events)) is Some,
    ensures
        last_request(events) matches Some((request, route)) && in_hand(
            phase_after(events),
        ) matches Some(parcel) && {
            &&& parcel.stream_key == request.stream_key
            &&& parcel.receipt == request.receipt
            &&& parcel.command.len() == 5
            &&& parcel.command[0] == encode_utf8("XADD"@)
            &&& parcel.command[1] == encode_utf8(parcel.redis_key)
            &&& parcel.command[2] == encode_utf8("*"@)
            &&& parcel.command[3] == encode_utf8("msg"@)
            &&& parcel.command[4] == request.bytes
            &&& match route {
                Route::Whole => parcel.shard == 0 && parcel.redis_key == request.stream_key,
                Route::Shard(shard) => parcel.shard == shard && parcel.redis_key
                    == request.stream_key + ":"@ + text::decimal(shard as nat),
                Route::Nowhere => false,
            }
        },
    decreases events.len(),
{
    if events.len() > 0 {
        if let Event::Requested { request, now, route } = events.last() {
            if route !is Nowhere {
                step_laws::law_message_is_made_ready(request, now, route);
            }
        } else {
            law_command_is_for_the_last_request(events.drop_last());
        }
    }
}

/// The answer to a stored message names the stream that was asked for, the shard that was chosen
/// and exactly the sequence number and the time that the server gave. It goes to where the last
/// request wants it, however often the message was refused before.
pub proof fn law_stored_message_is_answered(
    events: Seq<Event>,
    timestamp: Timestamp,
    sequence: SequenceNo,
)
    requires
        can_happen(events),
        events.len() > 0,
        events.last() == Event::Answered(Ok((timestamp, sequence))),
    ensures
        last_request(events) matches Some((request, route)) && effect_of(events) == (
        Effect::Reply {
            receipt: request.receipt,
            result: Ok(
                Header {
                    stream_key: request.stream_key,
                    shard: match route {
                        Route::Shard(shard) => shard,
                        _ => 0,
                    },
                    sequence,
                    timestamp,
                },
            ),
        }),
        phase_after(events) is Receiving,
{
    law_command_is_for_the_last_request(events.drop_last());
}

/// An answer that could not be read reaches whoever made the last request, as the error that it is.
pub proof fn law_unreadable_answer_is_passed_on(events: Seq<Event>, error: StreamErr<RedisErr>)
    requires
        can_happen(events),
        events.len() > 0,
        events.last() == Event::Answered(Err(error)),
    ensures
        last_request(events) matches Some((request, _)) && effect_of(events) == (Effect::Reply {
            receipt: request.receipt,
            result: Err(error),
        }),
        phase_after(events) is Receiving,
{
    law_command_is_for_the_last_request(events.drop_last());
}

/// As long as a message has retries left, a key that has moved is followed to the node that the
/// server points to, whatever the message and its shard.
pub proof fn law_moved_key_is_followed(events: Seq<Event>, to: Seq<char>, protocol: Seq<char>)
    requires
        can_happen(events),
        events.len() > 0,
        events.last() == (Event::Refused {
            kind: FailureKind::Moved,
            redirect: Some(to),
            protocol: Some(protocol),
        }),
        refusals(events) < MAX_RETRY,
    ensures
        effect_of(events) == (Effect::Redirect { url: protocol + "://"@ + to }),
        phase_after(events) is Connecting,
{
    law_parcel_stays_the_same(events.drop_last());
}

/// As long as a message has retries left, a lost connection is made anew and the message stays in
/// hand.
pub proof fn law_lost_connection_is_made_anew(events: Seq<Event>)
    requires
        can_happen(events),
        events.len() > 0,
        events.last() matches Event::Refused { kind, .. } && kind == FailureKind::Io,
        refusals(events) < MAX_RETRY,
    ensures
        effect_of(events) is Reconnect,
        phase_after(events) is Connecting,
{
    law_parcel_stays_the_same(events.drop_last());
}

/// A hopeless refusal reaches whoever made the last request, and the next request is taken.
pub proof fn law_hopeless_message_fails(events: Seq<Event>)
    requires
        can_happen(events),
        events.len() > 0,
        events.last() matches Event::Refused { kind, .. } && kind == FailureKind::Other,
        refusals(events) < MAX_RETRY,
    ensures
        last_request(events) matches Some((request, _)) && effect_of(events) == (Effect::Fail {
            receipt: request.receipt,
        }),
        phase_after(events) is Receiving,
{
    law_parcel_stays_the_same(events.drop_last());
    law_command_is_for_the_last_request(events.drop_last());
}

/// A sharder that can place messages goes on to do so, however many it has placed.
pub proof fn law_sharder_stays_placeable(states: Seq<Option<BoxedSharder>>)
    requires
        states.len() > 0,
        route_messages(states),
        states[0] matches Some(sharder) && sharder.0.placeable(),
    ensures
        states.last() matches Some(sharder) && sharder.0.placeable(),
    decreases states.len(),
{
    if states.len() > 1 {
        let fewer = states.drop_last();
        assert(fewer.last() == states[states.len() - 2]);
        assert(fewer[0] == states[0]);
        law_sharder_stays_placeable(fewer);
    }
}

/// Where the streams are not sharded at first, they never are.
pub proof fn law_streams_stay_whole(states: Seq<Option<BoxedSharder>>)
    requires
        states.len() > 0,
        route_messages(states),
    ensures
        states[0] is None <==> states.last() is None,
    decreases states.len(),
{
    if states.len() > 1 {
        let fewer = states.drop_last();
        assert(fewer.last() == states[states.len() - 2]);
        assert(fewer[0] == states[0]);
        law_streams_stay_whole(fewer);
    }
}

/// Whether these are the states of a sharder as one message after the other is routed.
pub open spec fn route_messages(states: Seq<Option<BoxedSharder>>) -> bool
    decreases states.len(),
{
    states.len() <= 1 || {
        &&& route_messages(states.drop_last())
        &&& dispatch::has_chosen(states[states.len() - 2], states.last())
    }
}

/// However many messages are routed, a sharder keeps to what it could choose for them at first.
pub proof fn law_sharder_keeps_its_plan(
    states: Seq<Option<BoxedSharder>>,
    before: nat,
    stream_key: Seq<char>,
    bytes: Seq<u8>,
    shard: u64,
)
    requires
        states.len() > 0,
        route_messages(states),
        states.last() matches Some(sharder) && sharder.0.may_pick(before, stream_key, bytes, shard),
    ensures
        states[0] matches Some(sharder) && sharder.0.may_pick(
            (states.len() - 1 + before) as nat,
            stream_key,
            bytes,
            shard,
        ),
    decreases states.len(),
{
    if states.len() > 1 {
        let fewer = states.drop_last();
        assert(fewer.last() == states[states.len() - 2]);
        assert(fewer[0] == states[0]);
        law_sharder_keeps_its_plan(fewer, before + 1, stream_key, bytes, shard);
    }
}

/// A producer with a round-robin sharder deals its messages to the shards in turn.
pub proof fn law_round_robin_deals_in_turn(
    round_robin: RoundRobinSharder,
    config: Option<Arc<dyn SharderConfig>>,
    states: Seq<Option<BoxedSharder>>,
    request: Request,
    shard: u64,
)
    requires
        sharder::is_shared(config, round_robin),
        states.len() > 0,
        sharder::is_fresh(states[0], config),
        route_messages(states),
        dispatch::may_route(states.last(), request, Route::Shard(shard)),
    ensures
        shard == (round_robin.turn() + states.len() - 1) % round_robin.num_shards() as int,
{
    law_sharder_keeps_its_plan(states, 0, request.stream_key, request.bytes, shard);
}

} // verus!
