//! What holds of each step of the task behind a producer, whatever message it has in hand.

use vstd::prelude::*;
use vstd::string::*;
use vstd::utf8::*;

use crate::dispatch;
use crate::dispatch::{Abort, Action, Effect, Event, FailureKind, Parcel, Phase, Route, Stage};
use crate::error::{RedisErr, StreamErr};
use crate::message::{Header, SequenceNo, Timestamp};
use crate::producer::{Request, SendRequest};
use crate::sharder::BoxedSharder;
use crate::text;

verus! {

/// A request is a signal if and only if it is empty and goes to the internal stream.
pub proof fn law_signals_are_empty_and_internal(request: Request)
    ensures
        dispatch::is_signal(request) <==> request.stream_key == "SEA_STREAMER_INTERNAL"@
            && request.bytes == Seq::<u8>::empty(),
{
    assert(request.bytes.len() == 0 <==> request.bytes =~= Seq::<u8>::empty());
}

/// A signal is answered at once, under the name of its stream and with the time that it came at.
/// No route matters.
pub proof fn law_signal_is_answered_at_once(request: Request, now: Timestamp, route: Route)
    requires
        request.stream_key == "SEA_STREAMER_INTERNAL"@,
        request.bytes.len() == 0,
    ensures
        dispatch::transition(Phase::Receiving, Event::Requested { request, now, route }) == (
            Phase::Receiving,
            Effect::Reply {
                receipt: request.receipt,
                result: Ok(
                    Header {
                        stream_key: "SEA_STREAMER_INTERNAL"@,
                        shard: 0,
                        sequence: 0,
                        timestamp: now,
                    },
                ),
            },
        ),
{
}

/// A message that is no signal is made ready to be sent, and nothing is done about it yet. Its
/// command appends the payload under the field `msg`, with an id that the server chooses, to the
/// very key that the connection is made for. That key is the name of the stream, and for a shard
/// of it the name, a colon and the number of the shard.
pub proof fn law_message_is_made_ready(request: Request, now: Timestamp, route: Route)
    requires
        request.stream_key != "SEA_STREAMER_INTERNAL"@ || request.bytes.len() != 0,
        route !is Nowhere,
    ensures
        ({
            let (phase, effect) = dispatch::transition(
                Phase::Receiving,
                Event::Requested { request, now, route },
            );
            &&& effect is Nothing
            &&& phase matches Phase::Connecting(parcel) && {
                &&& parcel.stream_key == request.stream_key
                &&& parcel.receipt == request.receipt
                &&& parcel.retried == 0
                &&& parcel.asked == 0
                &&& parcel.command.len() == 5
                &&& parcel.command[0] == encode_utf8("XADD"@)
                &&& parcel.command[1] == encode_utf8(parcel.redis_key)
                &&& parcel.command[2] == encode_utf8("*"@)
                &&& parcel.command[3] == encode_utf8("msg"@)
                &&& parcel.command[4] == request.bytes
                &&& match route {
                    Route::Shard(shard) => parcel.shard == shard && parcel.redis_key
                        == request.stream_key + ":"@ + text::decimal(shard as nat),
                    _ => parcel.shard == 0 && parcel.redis_key == request.stream_key,
                }
            }
        }),
{
    reveal_strlit(":");
    assert(":"@ =~= seq![':']);
}

/// Without a shard to choose, a message that is no signal ends the task.
pub proof fn law_message_without_shard_panics(request: Request, now: Timestamp)
    requires
        request.stream_key != "SEA_STREAMER_INTERNAL"@ || request.bytes.len() != 0,
    ensures
        dispatch::transition(
            Phase::Receiving,
            Event::Requested { request, now, route: Route::Nowhere },
        ) == (Phase::Stopped, Effect::Panic(Abort::NoShards)),
{
}

/// The key of a shard can be read back: it starts with the name of the stream, goes on with a colon
/// and ends in digits that stand for the number of the shard.
pub proof fn law_shard_key_can_be_read(stream_key: Seq<char>, shard: u64)
    ensures
        ({
            let key = dispatch::redis_key(stream_key, Some(shard));
            let digits = key.skip(stream_key.len() as int + 1);
            &&& key.len() > stream_key.len() + 1
            &&& key.take(stream_key.len() as int) == stream_key
            &&& key[stream_key.len() as int] == ':'
            &&& forall|i: int| 0 <= i < digits.len() ==> '0' <= #[trigger] digits[i] <= '9'
            &&& shard > 0 ==> digits[0] != '0'
            &&& text::number_of(digits) == shard
        }),
        dispatch::redis_key(stream_key, None) == stream_key,
{
    let key = dispatch::redis_key(stream_key, Some(shard));
    text::law_decimal_stands_for_the_number(shard as nat);
    assert(key.take(stream_key.len() as int) =~= stream_key);
    assert(key.skip(stream_key.len() as int + 1) =~= text::decimal(shard as nat));
}

/// The payload of a message has no part in where it goes: two messages to one stream, with the same
/// route, go to the same key and the same shard.
pub proof fn law_payload_does_not_route(
    request: Request,
    other: Request,
    now: Timestamp,
    later: Timestamp,
    route: Route,
)
    requires
        request.stream_key == other.stream_key,
        request.bytes.len() != 0,
        other.bytes.len() != 0,
        route !is Nowhere,
    ensures
        dispatch::transition(Phase::Receiving, Event::Requested { request, now, route })
            .0 matches Phase::Connecting(parcel) && dispatch::transition(
            Phase::Receiving,
            Event::Requested { request: other, now: later, route },
        ).0 matches Phase::Connecting(later_parcel) && parcel.redis_key == later_parcel.redis_key
            && parcel.shard == later_parcel.shard && parcel.command.take(4)
            == later_parcel.command.take(4),
{
    assert(dispatch::xadd(dispatch::redis_key(request.stream_key, None), request.bytes).take(4)
        =~= dispatch::xadd(dispatch::redis_key(request.stream_key, None), other.bytes).take(4));
    if let Route::Shard(shard) = route {
        let key = dispatch::redis_key(request.stream_key, Some(shard));
        assert(dispatch::xadd(key, request.bytes).take(4) =~= dispatch::xadd(
            key,
            other.bytes,
        ).take(4));
    }
}

/// Without a sharder a message goes to the whole stream. With one it goes to a shard that the
/// sharder may choose for it next, or nowhere if the sharder has none.
pub proof fn law_route_is_the_choice_of_the_sharder(
    sharder: Option<BoxedSharder>,
    request: Request,
    route: Route,
)
    ensures
        dispatch::may_route(sharder, request, route) <==> match route {
            Route::Whole => sharder is None,
            Route::Nowhere => sharder matches Some(sharder) && !sharder.0.placeable(),
            Route::Shard(shard) => sharder matches Some(sharder) && sharder.0.placeable()
                && sharder.0.may_pick(0, request.stream_key, request.bytes, shard),
        },
{
}

/// When no further request can come, the task ends.
pub proof fn law_closed_task_ends()
    ensures
        dispatch::transition(Phase::Receiving, Event::Closed) == (Phase::Stopped, Effect::Nothing),
{
}

/// A connection is all that the parcel has waited for: it is sent as it is.
pub proof fn law_connection_is_used(parcel: Parcel)
    ensures
        dispatch::transition(Phase::Connecting(parcel), Event::Connected) == (
            Phase::Sending(parcel),
            Effect::Nothing,
        ),
{
}

/// An error that will pass leaves the task waiting for the same connection, any number of times.
/// Any other error ends it, and it ends with that error.
pub proof fn law_connection_is_awaited(parcel: Parcel, error: StreamErr<RedisErr>, words: String)
    ensures
        dispatch::transition(
            Phase::Connecting(parcel),
            Event::NotConnected(StreamErr::Backend(RedisErr::TryAgain(words))),
        ) == (Phase::Connecting(parcel), Effect::Nothing),
        error == StreamErr::<RedisErr>::ConsumerGroupNotSet || error
            == StreamErr::<RedisErr>::AlreadyAnchored || error == StreamErr::<RedisErr>::NotAnchored
            || error == StreamErr::Backend(RedisErr::ProducerDied) || error == StreamErr::Backend(
            RedisErr::Unknown(words),
        ) ==> dispatch::transition(Phase::Connecting(parcel), Event::NotConnected(error)) == (
            Phase::Stopped,
            Effect::Stop { error },
        ),
{
}

/// A stored message is answered with the stream and the shard that it was sent to, and with exactly
/// the sequence number and the time that the server gave it.
pub proof fn law_stored_message_is_answered(
    parcel: Parcel,
    timestamp: Timestamp,
    sequence: SequenceNo,
)
    ensures
        dispatch::transition(
            Phase::Sending(parcel),
            Event::Answered(Ok((timestamp, sequence))),
        ) == (
            Phase::Receiving,
            Effect::Reply {
                receipt: parcel.receipt,
                result: Ok(
                    Header {
                        stream_key: parcel.stream_key,
                        shard: parcel.shard,
                        sequence,
                        timestamp,
                    },
                ),
            },
        ),
{
}

/// An answer that could not be read is passed on as the error that it is.
pub proof fn law_unreadable_answer_is_passed_on(parcel: Parcel, error: StreamErr<RedisErr>)
    ensures
        dispatch::transition(Phase::Sending(parcel), Event::Answered(Err(error))) == (
            Phase::Receiving,
            Effect::Reply { receipt: parcel.receipt, result: Err(error) },
        ),
{
}

/// Two ids give two headers: what the server says is not lost in the answer.
pub proof fn law_answers_tell_ids_apart(
    parcel: Parcel,
    id: (Timestamp, SequenceNo),
    other: (Timestamp, SequenceNo),
)
    requires
        dispatch::transition(Phase::Sending(parcel), Event::Answered(Ok(id)))
            == dispatch::transition(Phase::Sending(parcel), Event::Answered(Ok(other))),
    ensures
        id == other,
{
    law_stored_message_is_answered(parcel, id.0, id.1);
    law_stored_message_is_answered(parcel, other.0, other.1);
}

/// The hundredth refusal of a message ends the task, for whatever reason it comes.
pub proof fn law_hundredth_refusal_panics(
    parcel: Parcel,
    kind: FailureKind,
    redirect: Option<Seq<char>>,
    protocol: Option<Seq<char>>,
)
    requires
        parcel.retried == 99,
    ensures
        dispatch::transition(
            Phase::Sending(parcel),
            Event::Refused { kind, redirect, protocol },
        ) == (Phase::Stopped, Effect::Panic(Abort::RetriesExhausted)),
{
}

/// A key that has moved is followed to its new node, whatever the message: the address of the node
/// is the protocol, `://` and where the server points to. The message is sent again as it is.
pub proof fn law_moved_key_is_followed(parcel: Parcel, to: Seq<char>, protocol: Seq<char>)
    requires
        parcel.retried < 99,
    ensures
        dispatch::transition(
            Phase::Sending(parcel),
            Event::Refused {
                kind: FailureKind::Moved,
                redirect: Some(to),
                protocol: Some(protocol),
            },
        ) == (
            Phase::Connecting(Parcel { retried: parcel.retried + 1, ..parcel }),
            Effect::Redirect { url: protocol + "://"@ + to },
        ),
{
}

/// A key that has moved to an unknown place ends the task.
pub proof fn law_moved_key_must_be_found(
    parcel: Parcel,
    to: Seq<char>,
    protocol: Option<Seq<char>>,
)
    requires
        parcel.retried < 99,
    ensures
        dispatch::transition(
            Phase::Sending(parcel),
            Event::Refused { kind: FailureKind::Moved, redirect: None, protocol },
        ) == (Phase::Stopped, Effect::Panic(Abort::MovedNowhere)),
        dispatch::transition(
            Phase::Sending(parcel),
            Event::Refused { kind: FailureKind::Moved, redirect: Some(to), protocol: None },
        ) == (Phase::Stopped, Effect::Panic(Abort::NoProtocol)),
{
}

/// A node that asks for patience is asked again, after a wait that is twice as long as the last one
/// that it asked for, up to about a minute: 1, 2, 4, 8, 16, 32 and then always 64 seconds.
pub proof fn law_patience_is_granted(
    parcel: Parcel,
    kind: FailureKind,
    redirect: Option<Seq<char>>,
    protocol: Option<Seq<char>>,
)
    requires
        parcel.retried < 99,
        kind == FailureKind::Ask || kind == FailureKind::TryAgain || kind
            == FailureKind::ClusterDown || kind == FailureKind::MasterDown,
    ensures
        dispatch::transition(
            Phase::Sending(parcel),
            Event::Refused { kind, redirect, protocol },
        ) == (
            Phase::Connecting(
                Parcel { retried: parcel.retried + 1, asked: parcel.asked + 1, ..parcel },
            ),
            Effect::Backoff {
                secs: if parcel.asked == 0 {
                    1
                } else if parcel.asked == 1 {
                    2
                } else if parcel.asked == 2 {
                    4
                } else if parcel.asked == 3 {
                    8
                } else if parcel.asked == 4 {
                    16
                } else if parcel.asked == 5 {
                    32
                } else {
                    64
                },
            },
        ),
{
    vstd::arithmetic::power2::lemma2_to64();
}

/// After a failure of the connection the message is sent again as it is, over a new connection.
pub proof fn law_lost_connection_is_made_anew(
    parcel: Parcel,
    redirect: Option<Seq<char>>,
    protocol: Option<Seq<char>>,
)
    requires
        parcel.retried < 99,
    ensures
        dispatch::transition(
            Phase::Sending(parcel),
            Event::Refused { kind: FailureKind::Io, redirect, protocol },
        ) == (
            Phase::Connecting(Parcel { retried: parcel.retried + 1, ..parcel }),
            Effect::Reconnect,
        ),
{
}

/// A refusal for any other reason is the answer to the request, and the next one is taken.
pub proof fn law_hopeless_message_fails(
    parcel: Parcel,
    redirect: Option<Seq<char>>,
    protocol: Option<Seq<char>>,
)
    requires
        parcel.retried < 99,
    ensures
        dispatch::transition(
            Phase::Sending(parcel),
            Event::Refused { kind: FailureKind::Other, redirect, protocol },
        ) == (Phase::Receiving, Effect::Fail { receipt: parcel.receipt }),
{
}

/// What is done about a refusal depends on how often the message was refused, and on nothing else
/// of it: not on its stream, its shard, its payload or its receipt.
pub proof fn law_refusals_do_not_read_the_message(
    parcel: Parcel,
    other: Parcel,
    kind: FailureKind,
    redirect: Option<Seq<char>>,
    protocol: Option<Seq<char>>,
)
    requires
        parcel.retried == other.retried < 100,
        parcel.asked == other.asked,
    ensures
        ({
            let event = Event::Refused { kind, redirect, protocol };
            let (phase, effect) = dispatch::transition(Phase::Sending(parcel), event);
            let (other_phase, other_effect) = dispatch::transition(Phase::Sending(other), event);
            &&& phase is Receiving == other_phase is Receiving
            &&& phase is Connecting == other_phase is Connecting
            &&& phase is Stopped == other_phase is Stopped
            &&& effect == other_effect || (effect == (Effect::Fail { receipt: parcel.receipt })
                && other_effect == (Effect::Fail { receipt: other.receipt }))
        }),
{
}

/// Each event can happen in one phase, whatever the message: requests come while the task waits for
/// them, connections while it waits for one, and answers while a command is under way.
pub proof fn law_each_event_has_its_phase(phase: Phase, event: Event)
    ensures
        dispatch::fits(phase, event) <==> match phase {
            Phase::Receiving => event is Requested || event is Closed,
            Phase::Connecting(_) => event is Connected || event is NotConnected,
            Phase::Sending(_) => event is Answered || event is Refused,
            Phase::Stopped => false,
        },
{
}

/// What an action says is what it holds.
pub proof fn law_actions_say_what_they_hold(action: Action)
    ensures
        match action {
            Action::Nothing => action@ == Effect::Nothing,
            Action::Reply { receipt, result: Ok(header) } => action@ == (Effect::Reply {
                receipt,
                result: Ok(header@),
            }),
            Action::Reply { receipt, result: Err(error) } => action@ == (Effect::Reply {
                receipt,
                result: Err(error),
            }),
            Action::Fail { receipt } => action@ == (Effect::Fail { receipt }),
            Action::Redirect { url } => action@ == (Effect::Redirect { url: url@ }),
            Action::Backoff { secs } => action@ == (Effect::Backoff { secs: secs as nat }),
            Action::Reconnect => action@ == Effect::Reconnect,
            Action::Stop { error } => action@ == (Effect::Stop { error }),
            Action::Panic(abort) => action@ == Effect::Panic(abort),
        },
{
}

/// What a stage says is what it holds.
pub proof fn law_stages_say_what_they_hold(stage: Stage)
    ensures
        match stage {
            Stage::Receiving => stage@ == Phase::Receiving,
            Stage::Connecting(delivery) => stage@ == Phase::Connecting(delivery@),
            Stage::Sending(delivery) => stage@ == Phase::Sending(delivery@),
            Stage::Stopped => stage@ == Phase::Stopped,
        },
{
}

/// What a request says is what it holds.
pub proof fn law_requests_say_what_they_hold(request: SendRequest)
    ensures
        request@.stream_key == request.stream_key@,
        request@.bytes == request.bytes@,
        request@.receipt == request.receipt,
{
}

/// What an optional text says is what it holds.
pub proof fn law_texts_say_what_they_hold(words: String)
    ensures
        dispatch::text_view(Some(words)) == Some(words@),
        dispatch::text_view(None) is None,
{
}

} // verus!
