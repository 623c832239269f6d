//! What the library relies on of other crates and of the standard library, without proof.

use std::sync::Arc;
use std::time::Duration;

use flume::{Receiver, RecvError, SendError, Sender};
use futures::future::Ready;
use redis::{Cmd, RedisError};
use time::OffsetDateTime;
use vstd::future::*;
use vstd::prelude::*;
use vstd::utf8::*;

use crate::dispatch::FailureKind;
use crate::error::RedisResult;
use crate::message::Receipt;
use crate::producer::SendRequest;
use crate::sharder;
use crate::sharder::SharderConfig;

verus! {

/// `time::OffsetDateTime`, a point in time.
#[verifier::external_type_specification]
#[verifier::external_body]
pub struct ExOffsetDateTime(OffsetDateTime);

/// `redis::Cmd`, a command under construction.
#[verifier::external_type_specification]
#[verifier::external_body]
pub struct ExCmd(Cmd);

/// `redis::RedisError`, what a server or a connection answers in place of a value.
#[verifier::external_type_specification]
#[verifier::external_body]
pub struct ExRedisError(RedisError);

/// `flume::Sender`, the end of a channel that messages go in at.
#[verifier::external_type_specification]
#[verifier::external_body]
#[verifier::reject_recursive_types(T)]
pub struct ExSender<T>(Sender<T>);

/// `flume::Receiver`, the end of a channel that messages come out at.
#[verifier::external_type_specification]
#[verifier::external_body]
#[verifier::reject_recursive_types(T)]
pub struct ExReceiver<T>(Receiver<T>);

/// `flume::SendError`, which says that nobody is left to receive.
#[verifier::external_type_specification]
#[verifier::external_body]
#[verifier::reject_recursive_types(T)]
pub struct ExSendError<T>(SendError<T>);

/// `flume::RecvError`, which says that nobody is left to send.
#[verifier::external_type_specification]
#[verifier::external_body]
pub struct ExRecvError(RecvError);

/// `futures::future::Ready`, a future that holds its outcome from the start.
#[verifier::external_type_specification]
#[verifier::external_body]
#[verifier::reject_recursive_types(T)]
pub struct ExReady<T>(Ready<T>);

/// `time::OffsetDateTime::now_utc` reads the clock: nothing is claimed of what it shows.
pub assume_specification[ OffsetDateTime::now_utc ]() -> (now: OffsetDateTime)
;

/// The nanoseconds from the Unix epoch to a point in time.
pub uninterp spec fn instant_of(timestamp: OffsetDateTime) -> i128;

/// `time::OffsetDateTime::unix_timestamp_nanos` gives the nanoseconds from the Unix epoch to its
/// argument, which are negative before the epoch.
pub assume_specification[ OffsetDateTime::unix_timestamp_nanos ](
    timestamp: OffsetDateTime,
) -> (nanos: i128)
    ensures
        nanos == instant_of(timestamp),
;

/// The length of a duration in nanoseconds.
pub uninterp spec fn nanoseconds_of(duration: Duration) -> nat;

/// The duration of as many whole seconds.
pub uninterp spec fn whole_seconds(secs: u64) -> Duration;

/// `std::time::Duration::from_secs` makes the duration of as many whole seconds, which has its
/// length in nanoseconds.
pub assume_specification[ Duration::from_secs ](secs: u64) -> (duration: Duration)
    ensures
        duration == whole_seconds(secs),
        nanoseconds_of(duration) == secs * 1_000_000_000,
;

/// The arguments of a command in order, its name first, as they go to the server.
pub uninterp spec fn arguments_of(command: Cmd) -> Seq<Seq<u8>>;

/// `redis::cmd` starts a command with its name as the only argument.
pub assume_specification[ redis::cmd ](name: &str) -> (command: Cmd)
    ensures
        arguments_of(command) == seq![encode_utf8(name@)],
;

/// `redis::Cmd::arg`, on a slice of bytes, appends these bytes to a command as one argument.
#[verifier::external_body]
pub(crate) fn append_argument(command: &mut Cmd, bytes: &[u8])
    ensures
        arguments_of(*final(command)) == arguments_of(*old(command)).push(bytes@),
{
    command.arg(bytes);
}

/// The kind of an error, with every kind that is treated as hopeless under one name.
pub uninterp spec fn kind_of(error: RedisError) -> FailureKind;

/// `redis::RedisError::kind` gives the kind of an error, variant for variant.
#[verifier::external_body]
pub(crate) fn error_kind(error: &RedisError) -> (kind: FailureKind)
    ensures
        kind == kind_of(*error),
{
    match error.kind() {
        redis::ErrorKind::Moved => FailureKind::Moved,
        redis::ErrorKind::Ask => FailureKind::Ask,
        redis::ErrorKind::TryAgain => FailureKind::TryAgain,
        redis::ErrorKind::ClusterDown => FailureKind::ClusterDown,
        redis::ErrorKind::MasterDown => FailureKind::MasterDown,
        redis::ErrorKind::IoError => FailureKind::Io,
        _ => FailureKind::Other,
    }
}

/// The `host:port` of the node that an error points to, if it points to one.
pub uninterp spec fn redirect_of(error: RedisError) -> Option<Seq<char>>;

/// `redis::RedisError::redirect_node` gives the node that an error points to, with a slot number
/// that is dropped here.
#[verifier::external_body]
pub(crate) fn error_redirect(error: &RedisError) -> (redirect: Option<String>)
    ensures
        redirect is Some == redirect_of(*error) is Some,
        redirect is Some ==> redirect->0@ == redirect_of(*error)->0,
{
    match error.redirect_node() {
        Some((to, _slot)) => Some(to.to_string()),
        None => None,
    }
}

/// Whether what goes in at `sender` comes out at `receiver`, for receipts.
pub uninterp spec fn receipt_channel(
    sender: Sender<RedisResult<Receipt>>,
    receiver: Receiver<RedisResult<Receipt>>,
) -> bool;

/// How many receipts the channel of a sender has room for.
pub uninterp spec fn capacity_of(sender: Sender<RedisResult<Receipt>>) -> usize;

/// `flume::bounded` makes the two ends of one channel, with room for as many receipts.
#[verifier::external_body]
pub(crate) fn receipt_queue(capacity: usize) -> (ends: (
    Sender<RedisResult<Receipt>>,
    Receiver<RedisResult<Receipt>>,
))
    ensures
        receipt_channel(ends.0, ends.1),
        capacity_of(ends.0) == capacity,
{
    flume::bounded(capacity)
}

/// Whether what goes in at `sender` comes out at `receiver`, for requests.
pub uninterp spec fn request_channel(
    sender: Sender<SendRequest>,
    receiver: Receiver<SendRequest>,
) -> bool;

/// Whether the channel of a sender has room for any number of requests.
pub uninterp spec fn is_unbounded(sender: Sender<SendRequest>) -> bool;

/// `flume::unbounded` makes the two ends of one channel, with room for any number of requests.
#[verifier::external_body]
pub(crate) fn request_queue() -> (ends: (Sender<SendRequest>, Receiver<SendRequest>))
    ensures
        request_channel(ends.0, ends.1),
        is_unbounded(ends.0),
{
    flume::unbounded()
}

/// `flume::Sender::clone` makes another sender of the same channel.
#[verifier::external_body]
pub(crate) fn another_sender(sender: &Sender<SendRequest>) -> (another: Sender<SendRequest>)
    ensures
        forall|receiver: Receiver<SendRequest>|
            #[trigger] request_channel(another, receiver) == request_channel(*sender, receiver),
        is_unbounded(another) == is_unbounded(*sender),
{
    sender.clone()
}

/// Whether `request` is put in at `sender` at some time, and is accepted there or not.
pub uninterp spec fn put_in(
    sender: Sender<SendRequest>,
    request: SendRequest,
    accepted: bool,
) -> bool;

/// `flume::Sender::send` puts a request in at the sender. It never waits, since there is always
/// room for the request: on a bounded channel it could wait without end. The request is accepted
/// unless all receivers are gone, which no argument shows: nothing is claimed of which of the two
/// comes.
#[verifier::external_body]
pub(crate) fn put(sender: &Sender<SendRequest>, request: SendRequest) -> (outcome: Result<
    (),
    SendError<SendRequest>,
>)
    requires
        is_unbounded(*sender),
    ensures
        put_in(*sender, request, outcome is Ok),
{
    sender.send(request)
}

/// `std::sync::Arc::from`, on a box, moves what is in the box to where it can be shared. It is
/// the same configuration as before, of which only its kind is no longer known.
#[verifier::external_body]
pub(crate) fn share<S: SharderConfig + 'static>(config: S) -> (shared: Option<
    Arc<dyn SharderConfig>,
>)
    ensures
        sharder::is_shared(shared, config),
{
    let boxed: Box<dyn SharderConfig> = Box::new(config);
    let shared = Some(Arc::from(boxed));
    shared
}

/// `futures::future::ready` makes a future that resolves to its argument.
pub assume_specification<T>[ futures::future::ready::<T> ](value: T) -> (future: Ready<T>)
    ensures
        future@ == value,
;

} // verus!
