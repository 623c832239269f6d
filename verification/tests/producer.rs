use sea_streamer::{
    create_producer, MessageHeader, RedisErr, RedisProducer, RedisProducerOptions, SendFuture,
    ShardId, StreamErr, StreamKey, RECEIPTS_PER_REQUEST, SEA_STREAMER_INTERNAL,
};
use time::OffsetDateTime;

fn key(name: &str) -> StreamKey {
    StreamKey::new(name.to_string())
}

fn header(name: &str, sequence: u64) -> MessageHeader {
    MessageHeader::new(key(name), ShardId::new(2), sequence, OffsetDateTime::UNIX_EPOCH)
}

#[test]
fn a_producer_is_anchored_once() {
    let (mut producer, _task) = create_producer(RedisProducerOptions::default());
    assert_eq!(producer.anchored(), Err(StreamErr::NotAnchored));
    assert_eq!(producer.anchor(key("first")), Ok(()));
    assert_eq!(producer.anchored(), Ok(&key("first")));
    assert_eq!(producer.anchor(key("second")), Err(StreamErr::AlreadyAnchored));
    assert_eq!(producer.anchored(), Ok(&key("first")));
    assert_eq!(producer.clone().anchored(), Ok(&key("first")));
}

#[test]
fn a_message_reaches_the_task_and_its_receipt_comes_back() {
    let (producer, task) = create_producer(RedisProducerOptions::default());
    let future = producer.send_to(&key("stream"), b"hello".to_vec()).unwrap();

    let request = task.requests().try_recv().unwrap();
    assert_eq!(request.stream_key, key("stream"));
    assert_eq!(request.bytes, b"hello");
    assert!(task.requests().is_empty());
    assert_eq!(task.requests().capacity(), None);
    assert_eq!(request.receipt.capacity(), Some(RECEIPTS_PER_REQUEST));
    assert_eq!(request.receipt.capacity(), Some(1));
    request.receipt.send(Ok(header("stream", 9))).unwrap();

    let result = SendFuture::resolve(future.into_receiver().recv());
    assert_eq!(result, Ok(header("stream", 9)));
}

#[test]
fn receipts_do_not_cross() {
    let (producer, task) = create_producer(RedisProducerOptions::default());
    let first = producer.send_to(&key("a"), vec![1]).unwrap();
    let second = producer.clone().send_to(&key("b"), vec![2]).unwrap();
    for sequence in [1, 2] {
        let request = task.requests().try_recv().unwrap();
        assert_eq!(request.bytes, [sequence as u8]);
        let name = request.stream_key.name().to_string();
        request.receipt.send(Ok(header(&name, sequence))).unwrap();
    }
    assert_eq!(SendFuture::resolve(second.into_receiver().recv()), Ok(header("b", 2)));
    assert_eq!(SendFuture::resolve(first.into_receiver().recv()), Ok(header("a", 1)));
}

#[test]
fn nothing_can_be_sent_when_the_task_is_gone() {
    let (producer, task) = create_producer(RedisProducerOptions::default());
    drop(task);
    let result = producer.send_to(&key("stream"), vec![]);
    assert!(matches!(result, Err(StreamErr::Backend(RedisErr::ProducerDied))));
    let result = producer.begin_flush();
    assert!(matches!(result, Err(StreamErr::Backend(RedisErr::ProducerDied))));
}

#[test]
fn a_request_that_is_dropped_is_an_error() {
    let (producer, task) = create_producer(RedisProducerOptions::default());
    let future = producer.send_to(&key("stream"), vec![]).unwrap();
    drop(task.requests().recv().unwrap());
    let result = SendFuture::resolve(future.into_receiver().recv());
    assert_eq!(result, Err(StreamErr::Backend(RedisErr::ProducerDied)));
}

#[test]
fn an_error_of_the_task_is_passed_on() {
    let error = StreamErr::Backend(RedisErr::Unknown("no".to_string()));
    let (sender, receiver) = flume::bounded(1);
    sender.send(Err(error)).unwrap();
    let expected = StreamErr::Backend(RedisErr::Unknown("no".to_string()));
    assert_eq!(SendFuture::resolve(receiver.recv()), Err(expected));
}

#[test]
fn a_flush_is_an_empty_message_to_the_internal_stream() {
    let (producer, task) = create_producer(RedisProducerOptions::default());
    let future = producer.begin_flush().unwrap();
    let request = task.requests().try_recv().unwrap();
    assert_eq!(request.stream_key.name(), SEA_STREAMER_INTERNAL);
    assert_eq!(request.stream_key.name(), "SEA_STREAMER_INTERNAL");
    assert!(request.bytes.is_empty());
    request.receipt.send(Ok(header("x", 0))).unwrap();
    let receipt = SendFuture::resolve(future.into_receiver().recv());
    assert_eq!(RedisProducer::end_flush(receipt), Ok(()));
    let error = Err(StreamErr::Backend(RedisErr::ProducerDied));
    assert_eq!(
        RedisProducer::end_flush(error),
        Err(StreamErr::Backend(RedisErr::ProducerDied))
    );
}
