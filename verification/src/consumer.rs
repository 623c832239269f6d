//! How a stream is consumed, whatever the backend.

use vstd::prelude::*;

use crate::error::StreamErr;

verus! {

#[derive(Debug, Copy, Clone, PartialEq, Eq, Structural)]
pub enum ConsumerMode {
    /// This is the 'vanilla' stream consumer. It does not commit, and only consumes messages from
    /// now on
    RealTime,
    /// When the process restarts, it will resume the stream from the previous committed sequence.
    /// It will use a consumer id unique to this host: on a physical machine, it will use the mac
    /// address. Inside a docker container, it will use the container id.
    Resumable,
    /// You should assign a consumer group manually. The load-balancing mechanism is
    /// implementation-specific.
    LoadBalanced,
}

/// The name of a group of consumers that share a stream.
#[derive(Debug, PartialEq, Eq)]
pub struct ConsumerGroup {
    name: String,
}

impl View for ConsumerGroup {
    type V = Seq<char>;

    closed spec fn view(&self) -> Seq<char> {
        self.name@
    }
}

impl Clone for ConsumerGroup {
    fn clone(&self) -> (copy: Self)
        ensures
            copy == *self,
    {
        ConsumerGroup { name: self.name.clone() }
    }
}

impl ConsumerGroup {
    pub fn new(name: String) -> (group: Self)
        ensures
            group@ == name@,
    {
        Self { name }
    }

    pub fn name(&self) -> (name: &str)
        ensures
            name@ == self@,
    {
        self.name.as_str()
    }
}

/// What tells a consumer from the others of its group.
#[derive(Debug, PartialEq, Eq)]
pub struct ConsumerId {
    id: String,
}

impl View for ConsumerId {
    type V = Seq<char>;

    closed spec fn view(&self) -> Seq<char> {
        self.id@
    }
}

impl Clone for ConsumerId {
    fn clone(&self) -> (copy: Self)
        ensures
            copy == *self,
    {
        ConsumerId { id: self.id.clone() }
    }
}

impl ConsumerId {
    pub fn new(id: String) -> (consumer_id: Self)
        ensures
            consumer_id@ == id@,
    {
        Self { id }
    }

    pub fn id(&self) -> (id: &str)
        ensures
            id@ == self@,
    {
        self.id.as_str()
    }
}

/// The options that consumers of every backend have.
pub trait ConsumerOptions: Clone + Send {
    type Error;

    /// The mode that was asked for.
    spec fn chosen_mode(&self) -> ConsumerMode;

    /// The consumer group that is set.
    spec fn chosen_group(&self) -> Option<ConsumerGroup>;

    fn new(mode: ConsumerMode) -> (options: Self)
        ensures
            options.chosen_mode() == mode,
            options.chosen_group() is None,
    ;

    /// Get the mode of this consumer.
    fn mode(&self) -> (mode: Result<&ConsumerMode, StreamErr<Self::Error>>)
        ensures
            mode matches Ok(mode) ==> *mode == self.chosen_mode(),
    ;

    /// Get currently set consumer group; may return [`StreamErr::ConsumerGroupNotSet`].
    fn consumer_group(&self) -> (group: Result<&ConsumerGroup, StreamErr<Self::Error>>)
        ensures
            group matches Ok(group) ==> self.chosen_group() == Some(*group),
            group matches Err(StreamErr::ConsumerGroupNotSet) ==> self.chosen_group() is None,
    ;

    /// Set consumer group for this consumer. Note the semantic is implementation-specific.
    fn set_consumer_group(&mut self, group_id: ConsumerGroup) -> (options: Result<
        &mut Self,
        StreamErr<Self::Error>,
    >)
        ensures
            match options {
                Ok(options) => {
                    &&& options.chosen_group() == Some(group_id)
                    &&& options.chosen_mode() == old(self).chosen_mode()
                    &&& *final(self) == *final(options)
                },
                Err(_) => *final(self) == *old(self),
            },
    ;
}

} // verus!
