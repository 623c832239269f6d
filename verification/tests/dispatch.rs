use flume::{bounded, Receiver};
use redis::{ErrorKind, RedisError};
use sea_streamer::{
    create_producer, Abort, Action, BoxedSharder, FailureKind, ProducerTask, PseudoRandomSharder,
    Receipt, RedisErr, RedisProducerOptions, RedisResult, RoundRobinSharder, SendRequest, Sharder,
    SharderConfig, Stage, StreamErr, StreamKey, MAX_RETRY, MSG, SEA_STREAMER_INTERNAL,
};
use time::OffsetDateTime;

fn request(name: &str, bytes: &[u8]) -> (SendRequest, Receiver<RedisResult<Receipt>>) {
    let (receipt, receiver) = bounded(1);
    let stream_key = StreamKey::new(name.to_string());
    (SendRequest { stream_key, bytes: bytes.to_vec(), receipt }, receiver)
}

fn plain_task() -> ProducerTask {
    create_producer(RedisProducerOptions::default()).1
}

fn task_with<S: SharderConfig + 'static>(config: S) -> ProducerTask {
    let mut options = RedisProducerOptions::default();
    options.set_sharder(config);
    create_producer(options).1
}

/// A task that waits for the answer to a command.
fn sending_task(name: &str, bytes: &[u8]) -> (ProducerTask, Receiver<RedisResult<Receipt>>) {
    let mut task = plain_task();
    let (request, receiver) = request(name, bytes);
    assert!(matches!(task.requested(request), Action::Nothing));
    assert!(matches!(task.connected(), Action::Nothing));
    (task, receiver)
}

fn redis_key(task: &ProducerTask) -> String {
    match task.stage() {
        Stage::Connecting(delivery) | Stage::Sending(delivery) => delivery.redis_key().to_string(),
        _ => panic!("no delivery"),
    }
}

fn packed(task: &ProducerTask) -> Vec<u8> {
    match task.stage() {
        Stage::Connecting(delivery) | Stage::Sending(delivery) => {
            delivery.command().get_packed_command()
        }
        _ => panic!("no delivery"),
    }
}

fn receipt_of(action: Action) -> RedisResult<Receipt> {
    match action {
        Action::Reply { result, .. } => result,
        _ => panic!("no reply"),
    }
}

#[test]
fn a_signal_is_answered_at_once() {
    let mut task = task_with(RoundRobinSharder::new(2));
    let (signal, receiver) = request(SEA_STREAMER_INTERNAL, &[]);
    let before = OffsetDateTime::now_utc();
    match task.requested(signal) {
        Action::Reply { receipt, result } => {
            let header = result.unwrap();
            assert_eq!(header.stream_key().name(), SEA_STREAMER_INTERNAL);
            assert_eq!(header.shard_id().id(), 0);
            assert_eq!(header.sequence(), &0);
            assert!(*header.timestamp() >= before);
            assert!(*header.timestamp() <= OffsetDateTime::now_utc());
            receipt.send(Ok(header)).unwrap();
        }
        _ => panic!("no reply"),
    }
    assert!(receiver.try_recv().is_ok());
    assert!(matches!(task.stage(), Stage::Receiving));

    // the sharder has not moved
    task.requested(request("stream", b"x").0);
    assert_eq!(redis_key(&task), "stream:0");
}

#[test]
fn a_signal_is_told_by_name_and_emptiness() {
    let mut task = plain_task();
    task.requested(request(SEA_STREAMER_INTERNAL, b"x").0);
    assert_eq!(redis_key(&task), SEA_STREAMER_INTERNAL);
    let mut task = plain_task();
    task.requested(request("stream", b"").0);
    assert_eq!(redis_key(&task), "stream");
}

#[test]
fn the_command_adds_to_the_stream() {
    assert_eq!(MSG, "msg");
    let mut task = plain_task();
    assert!(matches!(task.requested(request("stream", b"hi\r\n\0").0), Action::Nothing));
    assert!(matches!(task.stage(), Stage::Connecting(_)));
    let expected = b"*5\r\n$4\r\nXADD\r\n$6\r\nstream\r\n$1\r\n*\r\n$3\r\nmsg\r\n$5\r\nhi\r\n\0\r\n";
    assert_eq!(packed(&task), expected);
    let mut by_hand = redis::cmd("XADD");
    by_hand.arg("stream").arg("*").arg(&[(MSG, b"hi\r\n\0".to_vec())]);
    assert_eq!(packed(&task), by_hand.get_packed_command());
}

#[test]
fn an_empty_message_is_still_an_argument() {
    let (task, _receiver) = sending_task("stream", b"");
    let mut by_hand = redis::cmd("XADD");
    by_hand.arg("stream").arg("*").arg(&[(MSG, Vec::<u8>::new())]);
    assert_eq!(packed(&task), by_hand.get_packed_command());
}

#[test]
fn keys_may_hold_any_text() {
    let (task, _receiver) = sending_task("str\u{e9}am", b"1");
    let expected = "*5\r\n$4\r\nXADD\r\n$7\r\nstr\u{e9}am\r\n$1\r\n*\r\n$3\r\nmsg\r\n$1\r\n1\r\n";
    assert_eq!(packed(&task), expected.as_bytes());
}

#[test]
fn messages_are_dealt_to_the_shards_in_turn() {
    let mut task = task_with(RoundRobinSharder::new(3));
    for turn in 0..7u64 {
        let (message, _receiver) = request("stream", b"x");
        assert!(matches!(task.requested(message), Action::Nothing));
        assert_eq!(redis_key(&task), format!("stream:{}", turn % 3));
        task.connected();
        let action = task.answered(Ok((OffsetDateTime::UNIX_EPOCH, turn)));
        let header = receipt_of(action).unwrap();
        assert_eq!(header.shard_id().id(), turn % 3);
        assert_eq!(header.stream_key().name(), "stream");
        assert_eq!(header.sequence(), &turn);
    }
}

#[test]
fn pseudo_random_shards_are_part_of_the_key() {
    let mut task = task_with(PseudoRandomSharder::new(1));
    task.requested(request("stream", b"x").0);
    assert_eq!(redis_key(&task), "stream:0");
}

struct ByLength;

impl Sharder for ByLength {
    fn can_shard(&self) -> bool {
        true
    }

    fn shard(&mut self, stream_key: &StreamKey, bytes: &[u8]) -> u64 {
        (stream_key.name().len() * 1000 + bytes.len()) as u64
    }
}

impl SharderConfig for ByLength {
    fn init(&self) -> BoxedSharder {
        BoxedSharder(Box::new(ByLength))
    }
}

#[test]
fn a_sharder_of_the_user_is_asked() {
    let mut task = task_with(ByLength);
    task.requested(request("stream", b"four").0);
    assert_eq!(redis_key(&task), "stream:6004");
}

#[test]
fn different_shards_have_different_keys() {
    let mut keys = Vec::new();
    for shards in [11u32, 111] {
        let mut task = task_with(RoundRobinSharder::new(shards));
        for name in ["a", "a:1"] {
            task.requested(request(name, b"x").0);
            keys.push(redis_key(&task));
            task.connected();
            task.answered(Ok((OffsetDateTime::UNIX_EPOCH, 0)));
        }
    }
    assert_eq!(keys, ["a:0", "a:1:1", "a:0", "a:1:1"]);
}

#[test]
fn without_shards_the_task_panics() {
    let mut task = task_with(RoundRobinSharder::new(0));
    let action = task.requested(request("stream", b"x").0);
    assert!(matches!(action, Action::Panic(Abort::NoShards)));
    assert!(matches!(task.stage(), Stage::Stopped));
}

#[test]
fn an_answer_becomes_a_receipt() {
    let (mut task, receiver) = sending_task("stream", b"x");
    let timestamp = OffsetDateTime::from_unix_timestamp(1_700_000_000).unwrap();
    match task.answered(Ok((timestamp, 42))) {
        Action::Reply { receipt, result } => receipt.send(result).unwrap(),
        _ => panic!("no reply"),
    }
    let header = receiver.try_recv().unwrap().unwrap();
    assert_eq!(header.stream_key().name(), "stream");
    assert_eq!(header.shard_id().id(), 0);
    assert_eq!(header.sequence(), &42);
    assert_eq!(header.timestamp(), &timestamp);
    assert!(matches!(task.stage(), Stage::Receiving));
}

#[test]
fn an_answer_that_cannot_be_read_is_an_error() {
    let (mut task, _receiver) = sending_task("stream", b"x");
    let error = StreamErr::Backend(RedisErr::Unknown("not an id".to_string()));
    let result = receipt_of(task.answered(Err(error)));
    assert_eq!(result, Err(StreamErr::Backend(RedisErr::Unknown("not an id".to_string()))));
    assert!(matches!(task.stage(), Stage::Receiving));
}

#[test]
fn a_passing_error_of_the_cluster_is_waited_out() {
    let mut task = plain_task();
    task.requested(request("stream", b"x").0);
    for _ in 0..2 * MAX_RETRY {
        let error = StreamErr::Backend(RedisErr::TryAgain("soon".to_string()));
        assert!(matches!(task.not_connected(error), Action::Nothing));
        assert!(matches!(task.stage(), Stage::Connecting(_)));
    }
    assert_eq!(redis_key(&task), "stream");
}

#[test]
fn any_other_error_of_the_cluster_ends_the_task() {
    for error in [
        StreamErr::Backend(RedisErr::Unknown("gone".to_string())),
        StreamErr::Backend(RedisErr::ProducerDied),
        StreamErr::NotAnchored,
    ] {
        let mut task = plain_task();
        task.requested(request("stream", b"x").0);
        assert!(matches!(task.not_connected(error), Action::Stop { .. }));
        assert!(matches!(task.stage(), Stage::Stopped));
    }
}

#[test]
fn the_task_ends_when_no_request_can_come() {
    let mut task = plain_task();
    assert!(matches!(task.closed(), Action::Nothing));
    assert!(matches!(task.stage(), Stage::Stopped));
}

#[test]
fn the_backoff_doubles_up_to_a_minute() {
    let (mut task, _receiver) = sending_task("stream", b"x");
    let kinds = [
        FailureKind::Ask,
        FailureKind::TryAgain,
        FailureKind::ClusterDown,
        FailureKind::MasterDown,
    ];
    let mut waited = Vec::new();
    for i in 0..9 {
        match task.refused(kinds[i % 4], None, None) {
            Action::Backoff { secs } => waited.push(secs),
            _ => panic!("no backoff"),
        }
        task.connected();
    }
    assert_eq!(waited, [1, 2, 4, 8, 16, 32, 64, 64, 64]);
}

#[test]
fn other_refusals_do_not_lengthen_the_backoff() {
    let (mut task, _receiver) = sending_task("stream", b"x");
    assert!(matches!(task.refused(FailureKind::Io, None, None), Action::Reconnect));
    task.connected();
    let action = task.refused(FailureKind::Ask, None, None);
    assert!(matches!(action, Action::Backoff { secs: 1 }));
    task.connected();
    assert!(matches!(task.refused(FailureKind::Io, None, None), Action::Reconnect));
    task.connected();
    let action = task.refused(FailureKind::Ask, None, None);
    assert!(matches!(action, Action::Backoff { secs: 2 }));
}

#[test]
fn a_moved_key_is_followed() {
    let (mut task, _receiver) = sending_task("stream", b"x");
    let command = packed(&task);
    let to = Some("127.0.0.1:7001".to_string());
    match task.refused(FailureKind::Moved, to, Some("redis".to_string())) {
        Action::Redirect { url } => assert_eq!(url, "redis://127.0.0.1:7001"),
        _ => panic!("no redirect"),
    }
    assert!(matches!(task.stage(), Stage::Connecting(_)));
    assert_eq!(packed(&task), command);
}

#[test]
fn a_key_that_moved_nowhere_is_beyond_help() {
    let (mut task, _receiver) = sending_task("stream", b"x");
    let action = task.refused(FailureKind::Moved, None, Some("redis".to_string()));
    assert!(matches!(action, Action::Panic(Abort::MovedNowhere)));
    assert!(matches!(task.stage(), Stage::Stopped));

    let (mut task, _receiver) = sending_task("stream", b"x");
    let action = task.refused(FailureKind::Moved, Some("host:1".to_string()), None);
    assert!(matches!(action, Action::Panic(Abort::NoProtocol)));
    assert!(matches!(task.stage(), Stage::Stopped));
}

#[test]
fn hopeless_refusals_are_answered() {
    let (mut task, receiver) = sending_task("stream", b"x");
    match task.refused(FailureKind::Other, None, None) {
        Action::Fail { receipt } => {
            receipt.send(Err(StreamErr::Backend(RedisErr::Unknown("no".to_string())))).unwrap()
        }
        _ => panic!("no failure"),
    }
    assert!(receiver.try_recv().unwrap().is_err());
    assert!(matches!(task.stage(), Stage::Receiving));
}

#[test]
fn the_last_retry_is_the_last() {
    assert_eq!(MAX_RETRY, 100);
    let (mut task, receiver) = sending_task("stream", b"x");
    for _ in 0..99 {
        assert!(matches!(task.refused(FailureKind::Io, None, None), Action::Reconnect));
        task.connected();
    }
    let action = task.refused(FailureKind::Other, None, None);
    assert!(matches!(action, Action::Panic(Abort::RetriesExhausted)));
    assert!(matches!(task.stage(), Stage::Stopped));
    // nobody will answer
    assert_eq!(receiver.try_recv(), Err(flume::TryRecvError::Disconnected));
}

#[test]
fn every_message_has_retries_of_its_own() {
    let mut task = plain_task();
    for _ in 0..3 {
        task.requested(request("stream", b"x").0);
        task.connected();
        for _ in 0..99 {
            assert!(matches!(task.refused(FailureKind::Io, None, None), Action::Reconnect));
            task.connected();
        }
        assert!(receipt_of(task.answered(Ok((OffsetDateTime::UNIX_EPOCH, 1)))).is_ok());
    }
}

fn error(kind: ErrorKind) -> RedisError {
    RedisError::from((kind, "description"))
}

#[test]
fn errors_are_told_apart_by_kind() {
    for kind in [
        ErrorKind::Ask,
        ErrorKind::TryAgain,
        ErrorKind::ClusterDown,
        ErrorKind::MasterDown,
    ] {
        let (mut task, _receiver) = sending_task("stream", b"x");
        let action = task.failed(&error(kind), None);
        assert!(matches!(action, Action::Backoff { secs: 1 }));
    }

    let (mut task, _receiver) = sending_task("stream", b"x");
    let broken = RedisError::from(std::io::Error::new(std::io::ErrorKind::BrokenPipe, "broken"));
    assert!(matches!(task.failed(&broken, None), Action::Reconnect));

    for kind in [
        ErrorKind::ResponseError,
        ErrorKind::AuthenticationFailed,
        ErrorKind::TypeError,
        ErrorKind::ExecAbortError,
        ErrorKind::BusyLoadingError,
        ErrorKind::NoScriptError,
        ErrorKind::InvalidClientConfig,
        ErrorKind::CrossSlot,
        ErrorKind::ClientError,
        ErrorKind::ExtensionError,
        ErrorKind::ReadOnly,
    ] {
        let (mut task, _receiver) = sending_task("stream", b"x");
        let action = task.failed(&error(kind), Some("redis".to_string()));
        assert!(matches!(action, Action::Fail { .. }));
    }
}

#[test]
fn a_moved_error_says_where_to() {
    let moved = RedisError::from((ErrorKind::Moved, "moved", "3999 10.0.0.1:6381".to_string()));
    let (mut task, _receiver) = sending_task("stream", b"x");
    match task.failed(&moved, Some("rediss".to_string())) {
        Action::Redirect { url } => assert_eq!(url, "rediss://10.0.0.1:6381"),
        _ => panic!("no redirect"),
    }
    let (mut task, _receiver) = sending_task("stream", b"x");
    let action = task.failed(&error(ErrorKind::Moved), Some("redis".to_string()));
    assert!(matches!(action, Action::Panic(Abort::MovedNowhere)));
}

#[test]
fn requests_are_answered_in_order() {
    let (producer, mut task) = create_producer(RedisProducerOptions::default());
    let mut futures = Vec::new();
    for i in 0..5u8 {
        let key = StreamKey::new("stream".to_string());
        futures.push(producer.send_to(&key, vec![i]).unwrap().into_receiver());
    }
    let flush = producer.begin_flush().unwrap().into_receiver();

    for i in 0..5 {
        let request = task.requests().try_recv().unwrap();
        task.requested(request);
        task.connected();
        assert!(futures[i].is_empty());
        match task.answered(Ok((OffsetDateTime::UNIX_EPOCH, i as u64))) {
            Action::Reply { receipt, result } => receipt.send(result).unwrap(),
            _ => panic!("no reply"),
        }
        assert_eq!(futures[i].try_recv().unwrap().unwrap().sequence(), &(i as u64));
        assert!(flush.is_empty());
    }
    let signal = task.requests().try_recv().unwrap();
    match task.requested(signal) {
        Action::Reply { receipt, result } => receipt.send(result).unwrap(),
        _ => panic!("no reply"),
    }
    assert!(flush.try_recv().unwrap().is_ok());
}
