//! Where the requests of a producer go in, with a history of what has gone in.

use flume::{SendError, Sender};
use vstd::prelude::*;

use crate::foreign;
use crate::producer::SendRequest;

verus! {

/// The end of the queue of requests that they go in at. It remembers, for proofs, what was put in
/// through it.
pub struct Outlet<'a> {
    sender: &'a Sender<SendRequest>,
    history: Ghost<Seq<SendRequest>>,
}

impl<'a> Outlet<'a> {
    /// There is always room for one more request.
    #[verifier::type_invariant]
    closed spec fn never_waits(self) -> bool {
        foreign::is_unbounded(*self.sender)
    }

    /// The sender behind it.
    pub closed spec fn sender(&self) -> Sender<SendRequest> {
        *self.sender
    }

    /// What has been put in through it, in order.
    pub closed spec fn history(&self) -> Seq<SendRequest> {
        self.history@
    }

    /// An outlet that nothing has been put in at.
    pub fn new(sender: &'a Sender<SendRequest>) -> (outlet: Self)
        requires
            foreign::is_unbounded(*sender),
        ensures
            outlet.sender() == *sender,
            outlet.history() == Seq::<SendRequest>::empty(),
    {
        Outlet { sender, history: Ghost(Seq::empty()) }
    }

    /// Put a request in, without waiting. It is accepted unless the task is gone.
    pub fn put(&mut self, request: SendRequest) -> (outcome: Result<(), SendError<SendRequest>>)
        ensures
            foreign::put_in(old(self).sender(), request, outcome is Ok),
            final(self).history() == old(self).history().push(request),
            final(self).sender() == old(self).sender(),
    {
        proof {
            use_type_invariant(&*self);
        }
        let ghost put = request;
        let outcome = foreign::put(self.sender, request);
        self.history = Ghost(self.history@.push(put));
        outcome
    }
}

} // verus!
