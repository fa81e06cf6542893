//! The producers' handle on a mailbox's queue.

use crate::channel::push;
use futures::channel::mpsc::{unbounded, UnboundedReceiver, UnboundedSender};
use vstd::prelude::*;
use vstd::std_specs::convert::IntoSpec;

verus! {

/// What a producer puts on the queue: an event, and the sending end of the
/// channel that its response goes back on.
pub type Envelope<T, R> = (T, UnboundedSender<R>);

/// The queue refused an event because its receiving end is gone: the
/// dispatcher has ended. The event never reached the handler and is handed
/// back here.
pub struct EnqueueError<T> {
    pub event: T,
}

impl<T> EnqueueError<T> {
    /// The event that was not delivered.
    pub fn into_event(self) -> (r: T)
        ensures
            r == self.event,
    {
        self.event
    }
}

/// A handle on a mailbox's queue, shared by any number of producers.
#[verifier::reject_recursive_types(T)]
#[verifier::reject_recursive_types(R)]
pub struct Sender<T, R> {
    sender: UnboundedSender<Envelope<T, R>>,
}

impl<T, R> Sender<T, R> {
    /// Opens a fresh queue: the handle for producers, and the receiving end
    /// that the one dispatcher of the mailbox drains.
    pub fn new() -> (r: (Sender<T, R>, UnboundedReceiver<Envelope<T, R>>)) {
        let (sender, receiver) = unbounded::<Envelope<T, R>>();
        (Sender { sender }, receiver)
    }

    /// Puts the envelope of `event` and `reply` on the queue, for the
    /// dispatcher to hand the event to the handler and send the response on
    /// `reply`. Where the queue is closed, the event comes back in the error.
    pub fn enqueue(&self, event: T, reply: UnboundedSender<R>) -> (r: Result<(), EnqueueError<T>>)
        ensures
            r is Err ==> r->Err_0.event == event,
    {
        match push(&self.sender, (event, reply)) {
            Ok(()) => Ok(()),
            Err(envelope) => Err(EnqueueError { event: envelope.0 }),
        }
    }

    /// Puts `event` on the queue with a fresh reply channel, and returns the
    /// receiving end of that channel, on which the handler's one response
    /// arrives. Returns without waiting for the handler. Where the queue is
    /// closed, the event comes back in the error.
    pub fn emit<E: Into<T>>(&self, event: E) -> (r: Result<UnboundedReceiver<R>, EnqueueError<T>>)
        ensures
            r is Err ==> (E::obeys_into_spec() ==> r->Err_0.event == event.into_spec()),
    {
        let (reply, receiver) = unbounded::<R>();
        match self.enqueue(event.into(), reply) {
            Ok(()) => Ok(receiver),
            Err(e) => Err(e),
        }
    }

    /// Puts `event` on the queue with a reply channel whose receiving end is
    /// dropped at once: the handler runs and its response is discarded.
    /// Returns without waiting for the handler. Where the queue is closed,
    /// the event comes back in the error.
    pub fn emit_responseless<E: Into<T>>(&self, event: E) -> (r: Result<(), EnqueueError<T>>)
        ensures
            r is Err ==> (E::obeys_into_spec() ==> r->Err_0.event == event.into_spec()),
    {
        let (reply, _) = unbounded::<R>();
        self.enqueue(event.into(), reply)
    }
}

} // verus!
