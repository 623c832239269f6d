//! The producer: it hands requests to its task and waits for the receipts.

use std::sync::Arc;

use flume::{Receiver, RecvError, SendError, Sender};
use vstd::prelude::*;

use crate::dispatch;
use crate::dispatch::{Phase, ProducerTask};
use crate::error::{RedisErr, RedisResult, StreamErr};
use crate::foreign;
use crate::message::{MessageHeader, Receipt, StreamKey};
use crate::outlet::Outlet;
use crate::sharder;
use crate::sharder::{BoxedSharder, SharderConfig};

verus! {

/// Avoid using this StreamKey
pub const SEA_STREAMER_INTERNAL: &'static str = "SEA_STREAMER_INTERNAL";

/// A message, and where to send the receipt for it.
pub struct SendRequest {
    pub stream_key: StreamKey,
    pub bytes: Vec<u8>,
    pub receipt: Sender<RedisResult<Receipt>>,
}

/// What a request asks for, with its stream by name.
pub struct Request {
    pub stream_key: Seq<char>,
    pub bytes: Seq<u8>,
    pub receipt: Sender<RedisResult<Receipt>>,
}

impl View for SendRequest {
    type V = Request;

    open spec fn view(&self) -> Request {
        Request { stream_key: self.stream_key@, bytes: self.bytes@, receipt: self.receipt }
    }
}

/// How many receipts there are for one request.
pub const RECEIPTS_PER_REQUEST: usize = 1;

/// Options for Producers, including sharding.
pub struct RedisProducerOptions {
    sharder: Option<Arc<dyn SharderConfig>>,
}

impl Clone for RedisProducerOptions {
    fn clone(&self) -> (copy: Self)
        ensures
            copy.config() == self.config(),
    {
        match &self.sharder {
            Some(config) => {
                let sharder = Some(config.clone());
                RedisProducerOptions { sharder }
            },
            None => RedisProducerOptions { sharder: None },
        }
    }
}

impl Default for RedisProducerOptions {
    fn default() -> (options: Self)
        ensures
            options.config() is None,
    {
        RedisProducerOptions { sharder: None }
    }
}

impl RedisProducerOptions {
    /// The currently assigned sharder.
    pub closed spec fn config(&self) -> Option<Arc<dyn SharderConfig>> {
        self.sharder
    }

    /// Assign a sharder.
    ///
    /// Sharding simply means splitting a stream into multiple keys.
    /// These keys can then be handled by different nodes in a cluster.
    /// Since shards (group of keys) can be moved across nodes on the fly,
    /// it is recommended to over-shard for better key distribution.
    pub fn set_sharder<S: SharderConfig + 'static>(&mut self, v: S) -> (options: &mut Self)
        ensures
            sharder::is_shared(options.config(), v),
            *final(self) == *final(options),
    {
        self.sharder = foreign::share(v);
        self
    }

    /// Reset sharder to None.
    pub fn clear_sharder(&mut self) -> (options: &mut Self)
        ensures
            options.config() is None,
            *final(self) == *final(options),
    {
        self.sharder = None;
        self
    }

    /// Get the currently assigned sharder.
    pub fn sharder(&self) -> (sharder: Option<&dyn SharderConfig>)
        ensures
            match self.config() {
                Some(config) => sharder matches Some(sharder) && sharder == &*config,
                None => sharder is None,
            },
    {
        match &self.sharder {
            Some(config) => {
                let sharder = Some(&**config);
                sharder
            },
            None => None,
        }
    }
}

/// What a producer waits for after it has sent a message: the receipt.
#[derive(Debug)]
pub struct SendFuture {
    receiver: Receiver<RedisResult<Receipt>>,
}

impl SendFuture {
    /// Where the receipt comes out.
    pub closed spec fn receipts(&self) -> Receiver<RedisResult<Receipt>> {
        self.receiver
    }

    /// What sending a request has come to: something to wait for, unless the task is gone.
    pub fn of_outcome(
        outcome: Result<(), SendError<SendRequest>>,
        receiver: Receiver<RedisResult<Receipt>>,
    ) -> (result: RedisResult<SendFuture>)
        ensures
            match outcome {
                Ok(_) => result matches Ok(future) && future.receipts() == receiver,
                Err(_) => result == Err::<SendFuture, StreamErr<RedisErr>>(
                    StreamErr::Backend(RedisErr::ProducerDied),
                ),
            },
    {
        match outcome {
            Ok(_) => Ok(SendFuture { receiver }),
            Err(_) => Err(StreamErr::Backend(RedisErr::ProducerDied)),
        }
    }

    /// Where to wait for the receipt.
    pub fn into_receiver(self) -> (receiver: Receiver<RedisResult<Receipt>>)
        ensures
            receiver == self.receipts(),
    {
        self.receiver
    }

    /// What the wait has come to: what the task answered, unless the task is gone.
    pub fn resolve(received: Result<RedisResult<Receipt>, RecvError>) -> (result: RedisResult<
        MessageHeader,
    >)
        ensures
            result == match received {
                Ok(answer) => answer,
                Err(_) => Err(StreamErr::Backend(RedisErr::ProducerDied)),
            },
    {
        match received {
            Ok(answer) => answer,
            Err(_) => Err(StreamErr::Backend(RedisErr::ProducerDied)),
        }
    }
}

/// The Redis Producer.
#[derive(Debug)]
pub struct RedisProducer {
    stream: Option<StreamKey>,
    sender: Sender<SendRequest>,
}

impl View for RedisProducer {
    type V = Option<StreamKey>;

    /// The stream that the producer is anchored to.
    closed spec fn view(&self) -> Option<StreamKey> {
        self.stream
    }
}

impl Clone for RedisProducer {
    fn clone(&self) -> (copy: Self)
        ensures
            copy@ == self@,
            forall|queue: Receiver<SendRequest>|
                #[trigger] foreign::request_channel(copy.outlet(), queue)
                    == foreign::request_channel(self.outlet(), queue),
    {
        proof {
            use_type_invariant(self);
        }
        RedisProducer {
            stream: self.stream.clone(),
            sender: foreign::another_sender(&self.sender),
        }
    }
}

impl RedisProducer {
    /// There is always room for one more request.
    #[verifier::type_invariant]
    closed spec fn never_waits(self) -> bool {
        foreign::is_unbounded(self.sender)
    }

    /// Where the requests go in.
    pub closed spec fn outlet(&self) -> Sender<SendRequest> {
        self.sender
    }

    /// Send a message to a stream through an outlet, without waiting. One request goes in, for this
    /// message, and no other.
    pub fn send_through(
        outlet: &mut Outlet,
        stream: &StreamKey,
        payload: Vec<u8>,
    ) -> (result: RedisResult<SendFuture>)
        ensures
            final(outlet).history().len() == old(outlet).history().len() + 1,
            final(outlet).history().drop_last() == old(outlet).history(),
            ({
                let request = final(outlet).history().last();
                &&& foreign::put_in(old(outlet).sender(), request, result is Ok)
                &&& request.stream_key == *stream
                &&& request.bytes == payload
                &&& foreign::capacity_of(request.receipt) == 1
                &&& result matches Ok(future) ==> foreign::receipt_channel(
                    request.receipt,
                    future.receipts(),
                )
            }),
            result matches Err(error) ==> error == StreamErr::Backend(RedisErr::ProducerDied),
            final(outlet).sender() == old(outlet).sender(),
    {
        // one shot channel
        let (sender, receiver) = foreign::receipt_queue(RECEIPTS_PER_REQUEST);
        let request = SendRequest { stream_key: stream.clone(), bytes: payload, receipt: sender };
        let outcome = outlet.put(request);
        SendFuture::of_outcome(outcome, receiver)
    }

    /// Send a message to a stream, without waiting. The result is something to wait for the receipt
    /// with, or an error if the task is gone.
    ///
    /// All that goes in goes through one new outlet, in one call of [`Self::send_through`]. The
    /// producer itself is shared and shows no trace of what has gone in, so this cannot be said of
    /// it before and after the call.
    pub fn send_to(&self, stream: &StreamKey, payload: Vec<u8>) -> (result: RedisResult<SendFuture>)
        ensures
            exists|request: SendRequest|
                {
                    &&& #[trigger] foreign::put_in(self.outlet(), request, result is Ok)
                    &&& request.stream_key == *stream
                    &&& request.bytes == payload
                    &&& foreign::capacity_of(request.receipt) == 1
                    &&& result matches Ok(future) ==> foreign::receipt_channel(
                        request.receipt,
                        future.receipts(),
                    )
                },
            result matches Err(error) ==> error == StreamErr::Backend(RedisErr::ProducerDied),
            foreign::is_unbounded(self.outlet()),
    {
        proof {
            use_type_invariant(self);
        }
        // unbounded, so never blocks
        let mut outlet = Outlet::new(&self.sender);
        let result = Self::send_through(&mut outlet, stream, payload);
        let ghost sent = outlet.history().last();
        assert(outlet.history() =~= seq![sent]);
        assert(foreign::put_in(self.outlet(), sent, result is Ok));
        result
    }

    /// Start to flush: send a signal message, whose receipt is to be waited for. By the time it
    /// comes, everything before should have already been sent.
    pub fn begin_flush(&self) -> (result: RedisResult<SendFuture>)
        ensures
            exists|request: SendRequest|
                {
                    &&& #[trigger] foreign::put_in(self.outlet(), request, result is Ok)
                    &&& dispatch::is_signal(request@)
                    &&& request.stream_key@ == "SEA_STREAMER_INTERNAL"@
                    &&& request.bytes@.len() == 0
                    &&& foreign::capacity_of(request.receipt) == 1
                    &&& result matches Ok(future) ==> foreign::receipt_channel(
                        request.receipt,
                        future.receipts(),
                    )
                },
            result matches Err(error) ==> error == StreamErr::Backend(RedisErr::ProducerDied),
            foreign::is_unbounded(self.outlet()),
    {
        proof {
            use_type_invariant(self);
        }
        self.send_to(&StreamKey::new(SEA_STREAMER_INTERNAL.to_owned()), Vec::new())
    }

    /// What a flush has come to, when the receipt of its signal, or an error, is there.
    pub fn end_flush(receipt: RedisResult<Receipt>) -> (result: RedisResult<()>)
        ensures
            result == match receipt {
                Ok(_) => Ok(()),
                Err(error) => Err(error),
            },
    {
        match receipt {
            Ok(_) => Ok(()),
            Err(error) => Err(error),
        }
    }

    /// Anchor the producer to a stream. This can be done once.
    pub fn anchor(&mut self, stream: StreamKey) -> (result: RedisResult<()>)
        ensures
            match old(self)@ {
                None => result is Ok && final(self)@ == Some(stream),
                Some(_) => result == Err::<(), StreamErr<RedisErr>>(StreamErr::AlreadyAnchored)
                    && final(self)@ == old(self)@,
            },
            final(self).outlet() == old(self).outlet(),
    {
        proof {
            use_type_invariant(&*self);
        }
        if self.stream.is_none() {
            self.stream = Some(stream);
            Ok(())
        } else {
            Err(StreamErr::AlreadyAnchored)
        }
    }

    /// The stream that the producer is anchored to.
    pub fn anchored(&self) -> (result: RedisResult<&StreamKey>)
        ensures
            match self@ {
                Some(stream) => result == Ok::<&StreamKey, StreamErr<RedisErr>>(&stream),
                None => result == Err::<&StreamKey, StreamErr<RedisErr>>(StreamErr::NotAnchored),
            },
    {
        if let Some(stream) = &self.stream {
            Ok(stream)
        } else {
            Err(StreamErr::NotAnchored)
        }
    }
}

/// Make a producer, and the task that is to be run for it.
pub fn create_producer(options: RedisProducerOptions) -> (made: (RedisProducer, ProducerTask))
    ensures
        made.0@ is None,
        made.1@ == Phase::Receiving,
        foreign::request_channel(made.0.outlet(), made.1.queue()),
        sharder::is_fresh(made.1.sharder(), options.config()),
{
    let (sender, receiver) = foreign::request_queue();
    let sharder: Option<BoxedSharder> = match options.sharder() {
        Some(config) => Some(config.init()),
        None => None,
    };
    (RedisProducer { stream: None, sender }, ProducerTask::new(receiver, sharder))
}

} // verus!
