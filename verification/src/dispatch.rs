//! The task behind a producer, as a machine: it takes the requests of the producer one by one,
//! and of each it decides what to send, when to try again and what to answer.

use flume::{Receiver, Sender};
use redis::{Cmd, RedisError};
use time::OffsetDateTime;
use vstd::arithmetic::power2::*;
use vstd::prelude::*;
use vstd::string::*;
use vstd::utf8::*;

use crate::error::{RedisErr, RedisResult, StreamErr};
use crate::foreign;
use crate::message::{Header, MessageHeader, Receipt, SequenceNo, ShardId, StreamKey, Timestamp};
use crate::producer::{Request, SendRequest, SEA_STREAMER_INTERNAL};
use crate::sharder::BoxedSharder;
use crate::text;

verus! {

/// How many refusals of one message the task takes: at this one it gives up.
pub const MAX_RETRY: usize = 100;

/// The field of a stream entry that holds the payload.
pub const MSG: &'static str = "msg";

/// Why a server or a connection refused a command.
#[derive(Debug, Copy, Clone, PartialEq, Eq, Structural)]
pub enum FailureKind {
    /// The key lives on another node now.
    Moved,
    /// The key is on its way to another node.
    Ask,
    /// The request should be repeated.
    TryAgain,
    /// The cluster is down.
    ClusterDown,
    /// The master of the node is down.
    MasterDown,
    /// The connection failed.
    Io,
    /// Anything else. There is no use in trying again.
    Other,
}

/// Why the task cannot go on at all.
#[derive(Debug, Copy, Clone, PartialEq, Eq, Structural)]
pub enum Abort {
    /// The sharder has no shard to choose.
    NoShards,
    /// One message was refused `MAX_RETRY` times.
    RetriesExhausted,
    /// The key is moved, but to where?
    MovedNowhere,
    /// The cluster has no protocol to reach the new node by.
    NoProtocol,
}

/// Whether a request is the signal of a flush: an empty message to the internal stream.
pub open spec fn is_signal(request: Request) -> bool {
    request.stream_key == SEA_STREAMER_INTERNAL@ && request.bytes.len() == 0
}

/// Where a message is put in a stream.
pub enum Route {
    /// The stream is not sharded.
    Whole,
    /// The stream is sharded, and this shard was chosen.
    Shard(u64),
    /// The stream is sharded, but there is no shard to choose.
    Nowhere,
}

/// Whether this is a route that the sharder, if there is one, may choose for a request.
pub open spec fn may_route(sharder: Option<BoxedSharder>, request: Request, route: Route) -> bool {
    match sharder {
        None => route is Whole,
        Some(sharder) => if sharder.0.placeable() {
            route matches Route::Shard(shard) && sharder.0.may_pick(
                0,
                request.stream_key,
                request.bytes,
                shard,
            )
        } else {
            route is Nowhere
        },
    }
}

/// Whether a sharder, if there is one, will choose as the one before it would have done after one
/// more message.
pub open spec fn has_chosen(earlier: Option<BoxedSharder>, later: Option<BoxedSharder>) -> bool {
    match (earlier, later) {
        (Some(earlier), Some(later)) => {
            &&& earlier.0.placeable() ==> later.0.placeable()
            &&& forall|before: nat, stream_key: Seq<char>, bytes: Seq<u8>, shard: u64|
                #[trigger] later.0.may_pick(before, stream_key, bytes, shard)
                    ==> earlier.0.may_pick(before + 1, stream_key, bytes, shard)
        },
        (None, None) => true,
        _ => false,
    }
}

/// The Redis key of a stream, or of one shard of it.
pub open spec fn redis_key(stream_key: Seq<char>, shard: Option<u64>) -> Seq<char> {
    match shard {
        None => stream_key,
        Some(shard) => stream_key + seq![':'] + text::decimal(shard as nat),
    }
}

/// The command that appends an entry of one field to a stream: its name, the key of the stream,
/// the request for a new id, the field and the payload.
pub open spec fn xadd(redis_key: Seq<char>, bytes: Seq<u8>) -> Seq<Seq<u8>> {
    seq![
        encode_utf8("XADD"@),
        encode_utf8(redis_key),
        encode_utf8("*"@),
        encode_utf8(MSG@),
        bytes,
    ]
}

/// A message on its way.
pub struct Parcel {
    pub stream_key: Seq<char>,
    pub redis_key: Seq<char>,
    pub shard: u64,
    pub command: Seq<Seq<u8>>,
    pub receipt: Sender<RedisResult<Receipt>>,
    pub retried: nat,
    pub asked: nat,
}

/// The parcel that a request is made into.
pub open spec fn parcel(request: Request, shard: Option<u64>) -> Parcel {
    Parcel {
        stream_key: request.stream_key,
        redis_key: redis_key(request.stream_key, shard),
        shard: match shard {
            None => 0,
            Some(shard) => shard,
        },
        command: xadd(redis_key(request.stream_key, shard), request.bytes),
        receipt: request.receipt,
        retried: 0,
        asked: 0,
    }
}

/// What the task is waiting for.
pub enum Phase {
    /// The next request.
    Receiving,
    /// A connection to the node of the parcel's key.
    Connecting(Parcel),
    /// The answer to the parcel's command.
    Sending(Parcel),
    /// Nothing: it has ended.
    Stopped,
}

/// What happens to the task.
pub enum Event {
    /// A request has come, at a certain time, and a route was chosen for it.
    Requested { request: Request, now: Timestamp, route: Route },
    /// No further request can come.
    Closed,
    /// A connection is there.
    Connected,
    /// There is no connection.
    NotConnected(StreamErr<RedisErr>),
    /// The server has stored the message, and its id was read or not.
    Answered(RedisResult<(Timestamp, SequenceNo)>),
    /// The command was refused. The node that the error points to and the protocol of the cluster
    /// come with it.
    Refused { kind: FailureKind, redirect: Option<Seq<char>>, protocol: Option<Seq<char>> },
}

/// What the task has done about an event.
pub enum Effect {
    /// Nothing but to wait for what its phase says.
    Nothing,
    /// To answer a request.
    Reply { receipt: Sender<RedisResult<Receipt>>, result: Result<Header, StreamErr<RedisErr>> },
    /// To answer a request with the error of the refusal.
    Fail { receipt: Sender<RedisResult<Receipt>> },
    /// To note where the parcel's key has moved.
    Redirect { url: Seq<char> },
    /// To sleep for as many seconds.
    Backoff { secs: nat },
    /// To connect anew to the node that refused.
    Reconnect,
    /// To end because of an error.
    Stop { error: StreamErr<RedisErr> },
    /// To panic.
    Panic(Abort),
}

/// How long to wait when a node has asked for patience as many times before.
pub open spec fn backoff_secs(asked: nat) -> nat {
    pow2(
        if asked < 6 {
            asked
        } else {
            6
        },
    )
}

/// Whether an error of the cluster will pass.
pub open spec fn is_passing(error: StreamErr<RedisErr>) -> bool {
    error matches StreamErr::Backend(RedisErr::TryAgain(_))
}

/// What becomes of a parcel that is refused.
pub open spec fn refused(
    parcel: Parcel,
    kind: FailureKind,
    redirect: Option<Seq<char>>,
    protocol: Option<Seq<char>>,
) -> (Phase, Effect) {
    let again = Parcel { retried: parcel.retried + 1, ..parcel };
    if again.retried == MAX_RETRY {
        (Phase::Stopped, Effect::Panic(Abort::RetriesExhausted))
    } else {
        match kind {
            FailureKind::Moved => match (redirect, protocol) {
                (None, _) => (Phase::Stopped, Effect::Panic(Abort::MovedNowhere)),
                (Some(_), None) => (Phase::Stopped, Effect::Panic(Abort::NoProtocol)),
                (Some(to), Some(protocol)) => (
                    Phase::Connecting(again),
                    Effect::Redirect { url: protocol + "://"@ + to },
                ),
            },
            FailureKind::Ask
            | FailureKind::TryAgain
            | FailureKind::ClusterDown
            | FailureKind::MasterDown => (
                Phase::Connecting(Parcel { asked: parcel.asked + 1, ..again }),
                Effect::Backoff { secs: backoff_secs(parcel.asked) },
            ),
            FailureKind::Io => (Phase::Connecting(again), Effect::Reconnect),
            FailureKind::Other => (Phase::Receiving, Effect::Fail { receipt: parcel.receipt }),
        }
    }
}

/// Whether an event can happen in a phase.
pub open spec fn fits(phase: Phase, event: Event) -> bool {
    match event {
        Event::Requested { .. } | Event::Closed => phase is Receiving,
        Event::Connected | Event::NotConnected(_) => phase is Connecting,
        Event::Answered(_) | Event::Refused { .. } => phase is Sending,
    }
}

/// The phase after an event, and what is done about it.
pub open spec fn transition(phase: Phase, event: Event) -> (Phase, Effect)
    recommends
        fits(phase, event),
{
    match (phase, event) {
        (Phase::Receiving, Event::Requested { request, now, route }) => if is_signal(request) {
            (
                Phase::Receiving,
                Effect::Reply {
                    receipt: request.receipt,
                    result: Ok(
                        Header {
                            stream_key: request.stream_key,
                            shard: 0,
                            sequence: 0,
                            timestamp: now,
                        },
                    ),
                },
            )
        } else {
            match route {
                Route::Whole => (Phase::Connecting(parcel(request, None)), Effect::Nothing),
                Route::Shard(shard) => (
                    Phase::Connecting(parcel(request, Some(shard))),
                    Effect::Nothing,
                ),
                Route::Nowhere => (Phase::Stopped, Effect::Panic(Abort::NoShards)),
            }
        },
        (Phase::Receiving, Event::Closed) => (Phase::Stopped, Effect::Nothing),
        (Phase::Connecting(parcel), Event::Connected) => (Phase::Sending(parcel), Effect::Nothing),
        (Phase::Connecting(parcel), Event::NotConnected(error)) => if is_passing(error) {
            (Phase::Connecting(parcel), Effect::Nothing)
        } else {
            (Phase::Stopped, Effect::Stop { error })
        },
        (Phase::Sending(parcel), Event::Answered(id)) => (
            Phase::Receiving,
            Effect::Reply {
                receipt: parcel.receipt,
                result: match id {
                    Ok((timestamp, sequence)) => Ok(
                        Header {
                            stream_key: parcel.stream_key,
                            shard: parcel.shard,
                            sequence,
                            timestamp,
                        },
                    ),
                    Err(error) => Err(error),
                },
            },
        ),
        (Phase::Sending(parcel), Event::Refused { kind, redirect, protocol }) => refused(
            parcel,
            kind,
            redirect,
            protocol,
        ),
        _ => (phase, Effect::Nothing),
    }
}

/// A message on its way to the server.
pub struct Delivery {
    stream_key: StreamKey,
    redis_key: String,
    shard: ShardId,
    command: Cmd,
    receipt: Sender<RedisResult<Receipt>>,
    retried: usize,
    asked: usize,
}

impl View for Delivery {
    type V = Parcel;

    closed spec fn view(&self) -> Parcel {
        Parcel {
            stream_key: self.stream_key@,
            redis_key: self.redis_key@,
            shard: self.shard@,
            command: foreign::arguments_of(self.command),
            receipt: self.receipt,
            retried: self.retried as nat,
            asked: self.asked as nat,
        }
    }
}

impl Delivery {
    /// A delivery never outlives its last retry.
    #[verifier::type_invariant]
    closed spec fn has_retries_left(self) -> bool {
        self.asked <= self.retried < MAX_RETRY
    }

    /// The key whose node the command goes to.
    pub fn redis_key(&self) -> (key: &str)
        ensures
            key@ == self@.redis_key,
    {
        self.redis_key.as_str()
    }

    /// The command to send.
    pub fn command(&self) -> (command: &Cmd)
        ensures
            foreign::arguments_of(*command) == self@.command,
    {
        &self.command
    }
}

/// What the task is waiting for, with the message on its way.
pub enum Stage {
    /// The next request.
    Receiving,
    /// A connection to the node of the delivery's key.
    Connecting(Delivery),
    /// The answer to the delivery's command.
    Sending(Delivery),
    /// Nothing: it has ended.
    Stopped,
}

impl View for Stage {
    type V = Phase;

    open spec fn view(&self) -> Phase {
        match self {
            Stage::Receiving => Phase::Receiving,
            Stage::Connecting(delivery) => Phase::Connecting(delivery@),
            Stage::Sending(delivery) => Phase::Sending(delivery@),
            Stage::Stopped => Phase::Stopped,
        }
    }
}

/// What is to be done before the task waits again.
pub enum Action {
    /// Nothing.
    Nothing,
    /// Answer a request with a receipt or an error.
    Reply { receipt: Sender<RedisResult<Receipt>>, result: RedisResult<Receipt> },
    /// Answer a request with the error that the command was refused with.
    Fail { receipt: Sender<RedisResult<Receipt>> },
    /// Take note that the key of the delivery has moved to the node at `url`.
    Redirect { url: String },
    /// Sleep for as many seconds.
    Backoff { secs: u64 },
    /// Connect anew to the node that the command was sent to.
    Reconnect,
    /// Report the error. The task has ended.
    Stop { error: StreamErr<RedisErr> },
    /// Panic. The task has ended.
    Panic(Abort),
}

/// What a result says, with the header by what it says.
pub open spec fn result_view(result: RedisResult<Receipt>) -> Result<Header, StreamErr<RedisErr>> {
    match result {
        Ok(receipt) => Ok(receipt@),
        Err(error) => Err(error),
    }
}

/// What an optional text says.
pub open spec fn text_view(text: Option<String>) -> Option<Seq<char>> {
    match text {
        Some(text) => Some(text@),
        None => None,
    }
}

impl View for Action {
    type V = Effect;

    open spec fn view(&self) -> Effect {
        match self {
            Action::Nothing => Effect::Nothing,
            Action::Reply { receipt, result } => Effect::Reply {
                receipt: *receipt,
                result: result_view(*result),
            },
            Action::Fail { receipt } => Effect::Fail { receipt: *receipt },
            Action::Redirect { url } => Effect::Redirect { url: url@ },
            Action::Backoff { secs } => Effect::Backoff { secs: *secs as nat },
            Action::Reconnect => Effect::Reconnect,
            Action::Stop { error } => Effect::Stop { error: *error },
            Action::Panic(abort) => Effect::Panic(*abort),
        }
    }
}

/// The Redis key of a shard.
fn shard_key(stream_key: &StreamKey, shard: u64) -> (key: String)
    ensures
        key@ == redis_key(stream_key@, Some(shard)),
{
    proof {
        reveal_strlit(":");
    }
    let mut key: String = stream_key.name().to_owned();
    key.append(":");
    assert(":"@ =~= seq![':']);
    text::append_decimal(&mut key, shard);
    key
}

/// The command that appends a message to a stream.
fn xadd_command(redis_key: &str, bytes: &[u8]) -> (command: Cmd)
    ensures
        foreign::arguments_of(command) == xadd(redis_key@, bytes@),
{
    let mut command = redis::cmd("XADD");
    foreign::append_argument(&mut command, redis_key.as_bytes());
    foreign::append_argument(&mut command, "*".as_bytes());
    foreign::append_argument(&mut command, MSG.as_bytes());
    foreign::append_argument(&mut command, bytes);
    command
}

/// How long to wait when a node has asked for patience as many times before: this is an
/// exponential backoff, in seq of [1, 2, 4, 8, 16, 32, 64].
fn backoff(asked: usize) -> (secs: u64)
    ensures
        secs == backoff_secs(asked as nat),
{
    let doublings: u64 = if asked < 6 {
        asked as u64
    } else {
        6
    };
    proof {
        lemma2_to64();
        assert(1u64 << 0u64 == 1 && 1u64 << 1u64 == 2 && 1u64 << 2u64 == 4 && 1u64 << 3u64 == 8
            && 1u64 << 4u64 == 16 && 1u64 << 5u64 == 32 && 1u64 << 6u64 == 64) by (bit_vector);
    }
    1u64 << doublings
}

/// The address of a node that is given in form of `host:port` without protocol.
fn node_url(protocol: &str, to: &str) -> (url: String)
    ensures
        url@ == protocol@ + "://"@ + to@,
{
    let mut url: String = protocol.to_owned();
    url.append("://");
    url.append(to);
    url
}

/// The task that sends the messages of a producer.
pub struct ProducerTask {
    requests: Receiver<SendRequest>,
    sharder: Option<BoxedSharder>,
    stage: Stage,
}

impl View for ProducerTask {
    type V = Phase;

    closed spec fn view(&self) -> Phase {
        self.stage@
    }
}

impl ProducerTask {
    /// Where the requests come from.
    pub closed spec fn queue(&self) -> Receiver<SendRequest> {
        self.requests
    }

    /// The sharder, if the streams are sharded.
    pub closed spec fn sharder(&self) -> Option<BoxedSharder> {
        self.sharder
    }

    pub fn new(requests: Receiver<SendRequest>, sharder: Option<BoxedSharder>) -> (task: Self)
        ensures
            task@ == Phase::Receiving,
            task.queue() == requests,
            task.sharder() == sharder,
    {
        ProducerTask { requests, sharder, stage: Stage::Receiving }
    }

    /// Where to wait for a request.
    pub fn requests(&self) -> (requests: &Receiver<SendRequest>)
        ensures
            *requests == self.queue(),
    {
        &self.requests
    }

    /// What to wait for.
    pub fn stage(&self) -> (stage: &Stage)
        ensures
            stage@ == self@,
    {
        &self.stage
    }

    /// A signalling message has come: it is answered at once.
    pub fn signalled(&mut self, request: SendRequest, now: Timestamp) -> (action: Action)
        requires
            old(self)@ is Receiving,
            is_signal(request@),
        ensures
            forall|route: Route|
                (final(self)@, action@) == #[trigger] transition(
                    old(self)@,
                    Event::Requested { request: request@, now, route },
                ),
            final(self)@ is Receiving,
            action matches Action::Reply { receipt, result } && {
                &&& receipt == request.receipt
                &&& result matches Ok(header) && header@.stream_key == request.stream_key@
                    && header@.shard == 0 && header@.sequence == 0 && header@.timestamp == now
            },
            final(self).queue() == old(self).queue(),
            final(self).sharder() == old(self).sharder(),
    {
        let SendRequest { stream_key, bytes: _, receipt } = request;
        Action::Reply {
            receipt,
            result: Ok(MessageHeader::new(stream_key, ShardId::new(0), 0, now)),
        }
    }

    /// A message has come, and a shard was chosen for it if the streams are sharded.
    pub fn routed(&mut self, request: SendRequest, shard: Option<u64>) -> (action: Action)
        requires
            old(self)@ is Receiving,
            !is_signal(request@),
        ensures
            final(self)@ == Phase::Connecting(parcel(request@, shard)),
            final(self)@ matches Phase::Connecting(made) && {
                &&& made.stream_key == request.stream_key@
                &&& made.receipt == request.receipt
                &&& made.retried == 0 && made.asked == 0
                &&& match shard {
                    Some(shard) => made.shard == shard && made.redis_key == request.stream_key@
                        + seq![':'] + text::decimal(shard as nat),
                    None => made.shard == 0 && made.redis_key == request.stream_key@,
                }
                &&& made.command.len() == 5
                &&& made.command[0] == encode_utf8("XADD"@)
                &&& made.command[1] == encode_utf8(made.redis_key)
                &&& made.command[2] == encode_utf8("*"@)
                &&& made.command[3] == encode_utf8("msg"@)
                &&& made.command[4] == request.bytes@
            },
            action is Nothing,
            final(self).queue() == old(self).queue(),
            final(self).sharder() == old(self).sharder(),
    {
        let SendRequest { stream_key, bytes, receipt } = request;
        let redis_key: String = match shard {
            Some(shard) => shard_key(&stream_key, shard),
            None => stream_key.name().to_owned(),
        };
        let shard: ShardId = match shard {
            Some(shard) => ShardId::new(shard),
            None => ShardId::new(0),
        };
        let command = xadd_command(redis_key.as_str(), bytes.as_slice());
        self.stage =
        Stage::Connecting(
            Delivery { stream_key, redis_key, shard, command, receipt, retried: 0, asked: 0 },
        );
        Action::Nothing
    }

    /// A request has come.
    pub fn requested(&mut self, request: SendRequest) -> (action: Action)
        requires
            old(self)@ is Receiving,
        ensures
            exists|now: Timestamp, route: Route|
                (is_signal(request@) || may_route(old(self).sharder(), request@, route)) && (
                final(self)@, action@) == #[trigger] transition(
                    old(self)@,
                    Event::Requested { request: request@, now, route },
                ),
            if is_signal(request@) || final(self)@ is Stopped {
                final(self).sharder() == old(self).sharder()
            } else {
                has_chosen(old(self).sharder(), final(self).sharder())
            },
            if request.stream_key@ == "SEA_STREAMER_INTERNAL"@ && request.bytes@.len() == 0 {
                &&& final(self)@ is Receiving
                &&& action matches Action::Reply { receipt, result } && receipt == request.receipt
            } else if old(self).sharder() matches Some(sharder) && !sharder.0.placeable() {
                &&& final(self)@ is Stopped
                &&& action == Action::Panic(Abort::NoShards)
            } else {
                &&& action is Nothing
                &&& final(self)@ matches Phase::Connecting(made) && {
                    &&& made.stream_key == request.stream_key@
                    &&& made.receipt == request.receipt
                    &&& match old(self).sharder() {
                        Some(sharder) => {
                            &&& sharder.0.may_pick(
                                0,
                                request.stream_key@,
                                request.bytes@,
                                made.shard,
                            )
                            &&& made.redis_key == request.stream_key@ + seq![':'] + text::decimal(
                                made.shard as nat,
                            )
                        },
                        None => made.shard == 0 && made.redis_key == request.stream_key@,
                    }
                    &&& made.command.len() == 5
                    &&& made.command[1] == encode_utf8(made.redis_key)
                    &&& made.command[4] == request.bytes@
                }
            },
            final(self).queue() == old(self).queue(),
    {
        let ghost wanted = request@;
        let ghost some_time: Timestamp = arbitrary();
        if request.stream_key.has_name(SEA_STREAMER_INTERNAL) && request.bytes.is_empty() {
            let now = OffsetDateTime::now_utc();
            let action = self.signalled(request, now);
            assert((self@, action@) == transition(
                old(self)@,
                Event::Requested { request: wanted, now, route: Route::Whole },
            ));
            return action;
        }
        let mut shard: Option<u64> = None;
        match &mut self.sharder {
            Some(sharder) => {
                if !sharder.0.can_shard() {
                    self.stage = Stage::Stopped;
                    assert((self@, Effect::Panic(Abort::NoShards)) == transition(
                        old(self)@,
                        Event::Requested { request: wanted, now: some_time, route: Route::Nowhere },
                    ));
                    return Action::Panic(Abort::NoShards);
                }
                shard = Some(sharder.0.shard(&request.stream_key, request.bytes.as_slice()));
            },
            None => {},
        }
        let ghost route = match shard {
            Some(shard) => Route::Shard(shard),
            None => Route::Whole,
        };
        let action = self.routed(request, shard);
        assert((self@, action@) == transition(
            old(self)@,
            Event::Requested { request: wanted, now: some_time, route },
        ));
        action
    }

    /// All producers are gone, and so is the reason to wait.
    pub fn closed(&mut self) -> (action: Action)
        requires
            old(self)@ is Receiving,
        ensures
            (final(self)@, action@) == transition(old(self)@, Event::Closed),
            final(self)@ is Stopped,
            action is Nothing,
            final(self).queue() == old(self).queue(),
            final(self).sharder() == old(self).sharder(),
    {
        self.stage = Stage::Stopped;
        Action::Nothing
    }

    /// Takes the stage out, to put another one in.
    fn take_stage(&mut self) -> (stage: Stage)
        ensures
            stage == old(self).stage,
            final(self)@ is Stopped,
            final(self).queue() == old(self).queue(),
            final(self).sharder() == old(self).sharder(),
    {
        let mut stage = Stage::Stopped;
        std::mem::swap(&mut stage, &mut self.stage);
        stage
    }

    /// A connection to the node of the key is there.
    pub fn connected(&mut self) -> (action: Action)
        requires
            old(self)@ is Connecting,
        ensures
            (final(self)@, action@) == transition(old(self)@, Event::Connected),
            final(self)@ == Phase::Sending(old(self)@->Connecting_0),
            action is Nothing,
            final(self).queue() == old(self).queue(),
            final(self).sharder() == old(self).sharder(),
    {
        if let Stage::Connecting(delivery) = self.take_stage() {
            self.stage = Stage::Sending(delivery);
        }
        Action::Nothing
    }

    /// There is no connection to the node of the key.
    pub fn not_connected(&mut self, error: StreamErr<RedisErr>) -> (action: Action)
        requires
            old(self)@ is Connecting,
        ensures
            (final(self)@, action@) == transition(old(self)@, Event::NotConnected(error)),
            match error {
                StreamErr::Backend(RedisErr::TryAgain(_)) => final(self)@ == old(self)@
                    && action is Nothing,
                _ => final(self)@ is Stopped && action == (Action::Stop { error }),
            },
            final(self).queue() == old(self).queue(),
            final(self).sharder() == old(self).sharder(),
    {
        match error {
            StreamErr::Backend(RedisErr::TryAgain(_)) => Action::Nothing,
            error => {
                self.stage = Stage::Stopped;
                Action::Stop { error }
            },
        }
    }

    /// The server has answered, and the id of the message was read or not.
    pub fn answered(&mut self, id: RedisResult<(Timestamp, SequenceNo)>) -> (action: Action)
        requires
            old(self)@ is Sending,
        ensures
            (final(self)@, action@) == transition(old(self)@, Event::Answered(id)),
            final(self)@ is Receiving,
            action matches Action::Reply { receipt, result } && {
                &&& receipt == old(self)@->Sending_0.receipt
                &&& match id {
                    Ok((timestamp, sequence)) => result matches Ok(header) && header@.stream_key
                        == old(self)@->Sending_0.stream_key && header@.shard
                        == old(self)@->Sending_0.shard && header@.sequence == sequence
                        && header@.timestamp == timestamp,
                    Err(error) => result == Err::<Receipt, StreamErr<RedisErr>>(error),
                }
            },
            final(self).queue() == old(self).queue(),
            final(self).sharder() == old(self).sharder(),
    {
        match self.take_stage() {
            Stage::Sending(delivery) => {
                self.stage = Stage::Receiving;
                let Delivery { stream_key, shard, receipt, .. } = delivery;
                let result = match id {
                    Ok((timestamp, sequence)) => Ok(
                        MessageHeader::new(stream_key, shard, sequence, timestamp),
                    ),
                    Err(error) => Err(error),
                };
                Action::Reply { receipt, result }
            },
            _ => Action::Nothing,
        }
    }

    /// The server or the connection has refused the command, for a reason of this kind.
    pub fn refused(
        &mut self,
        kind: FailureKind,
        redirect: Option<String>,
        protocol: Option<String>,
    ) -> (action: Action)
        requires
            old(self)@ is Sending,
        ensures
            (final(self)@, action@) == transition(
                old(self)@,
                Event::Refused {
                    kind,
                    redirect: text_view(redirect),
                    protocol: text_view(protocol),
                },
            ),
            ({
                let sent = old(self)@->Sending_0;
                if sent.retried + 1 == MAX_RETRY {
                    final(self)@ is Stopped && action == Action::Panic(Abort::RetriesExhausted)
                } else {
                    match kind {
                        FailureKind::Moved => match (redirect, protocol) {
                            (Some(to), Some(protocol)) => {
                                &&& final(self)@ == Phase::Connecting(
                                    Parcel { retried: sent.retried + 1, ..sent },
                                )
                                &&& action matches Action::Redirect { url } && url@ == protocol@
                                    + "://"@ + to@
                            },
                            (Some(_), None) => final(self)@ is Stopped && action
                                == Action::Panic(Abort::NoProtocol),
                            (None, _) => final(self)@ is Stopped && action == Action::Panic(
                                Abort::MovedNowhere,
                            ),
                        },
                        FailureKind::Io => final(self)@ == Phase::Connecting(
                            Parcel { retried: sent.retried + 1, ..sent },
                        ) && action is Reconnect,
                        FailureKind::Other => final(self)@ is Receiving && action == (
                        Action::Fail { receipt: sent.receipt }),
                        _ => {
                            &&& final(self)@ == Phase::Connecting(
                                Parcel { retried: sent.retried + 1, asked: sent.asked + 1, ..sent },
                            )
                            &&& action matches Action::Backoff { secs } && secs == (
                            if sent.asked < 6 {
                                pow2(sent.asked)
                            } else {
                                64
                            })
                        },
                    }
                }
            }),
            final(self).queue() == old(self).queue(),
            final(self).sharder() == old(self).sharder(),
    {
        match self.take_stage() {
            Stage::Sending(delivery) => {
                let mut delivery = delivery;
                proof {
                    use_type_invariant(&delivery);
                }
                if delivery.retried + 1 == MAX_RETRY {
                    return Action::Panic(Abort::RetriesExhausted);
                }
                delivery.retried = delivery.retried + 1;
                match kind {
                    FailureKind::Moved => match redirect {
                        Some(to) => match protocol {
                            Some(protocol) => {
                                self.stage = Stage::Connecting(delivery);
                                Action::Redirect { url: node_url(protocol.as_str(), to.as_str()) }
                            },
                            None => Action::Panic(Abort::NoProtocol),
                        },
                        None => Action::Panic(Abort::MovedNowhere),
                    },
                    FailureKind::Ask
                    | FailureKind::TryAgain
                    | FailureKind::ClusterDown
                    | FailureKind::MasterDown => {
                        let secs: u64 = backoff(delivery.asked);
                        proof {
                            lemma2_to64();
                        }
                        delivery.asked = delivery.asked + 1;
                        self.stage = Stage::Connecting(delivery);
                        Action::Backoff { secs }
                    },
                    FailureKind::Io => {
                        self.stage = Stage::Connecting(delivery);
                        Action::Reconnect
                    },
                    FailureKind::Other => {
                        self.stage = Stage::Receiving;
                        let Delivery { receipt, .. } = delivery;
                        Action::Fail { receipt }
                    },
                }
            },
            _ => Action::Nothing,
        }
    }

    /// The server or the connection has refused the command with this error.
    pub fn failed(&mut self, error: &RedisError, protocol: Option<String>) -> (action: Action)
        requires
            old(self)@ is Sending,
        ensures
            (final(self)@, action@) == transition(
                old(self)@,
                Event::Refused {
                    kind: foreign::kind_of(*error),
                    redirect: foreign::redirect_of(*error),
                    protocol: text_view(protocol),
                },
            ),
            final(self).queue() == old(self).queue(),
            final(self).sharder() == old(self).sharder(),
    {
        let kind = foreign::error_kind(error);
        let redirect = foreign::error_redirect(error);
        self.refused(kind, redirect, protocol)
    }
}

} // verus!
