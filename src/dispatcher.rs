//! The decisions of a mailbox's one dispatcher, apart from the waiting.
//!
//! The dispatcher alternates between taking the next envelope off the queue,
//! running the handler on its event, and offering the response on the
//! envelope's reply channel. Waiting for the queue and for the handler is the
//! caller's part; what is taken, what is handed to the handler and where each
//! response goes is decided here.

use crate::channel::push;
use crate::sender::Envelope;
use futures::channel::mpsc::UnboundedSender;
use vstd::prelude::*;

verus! {

/// What became of a response offered on its reply channel.
#[derive(PartialEq, Eq, Structural, Clone, Copy, Debug)]
pub enum Delivery {
    /// The producer's receiving end took it.
    Delivered,
    /// The producer had dropped its receiving end. The dispatcher goes on;
    /// the caller may record the loss.
    Undeliverable,
}

impl Delivery {
    /// The outcome of a send on a reply channel: taken where the send went
    /// through, lost where the channel refused the response.
    pub fn of_send<R>(sent: &Result<(), R>) -> (d: Delivery)
        ensures
            (d == Delivery::Delivered) <==> sent is Ok,
            (d == Delivery::Undeliverable) <==> sent is Err,
    {
        match sent {
            Ok(()) => Delivery::Delivered,
            Err(_) => Delivery::Undeliverable,
        }
    }
}

/// The dispatcher of one mailbox.
#[verifier::reject_recursive_types(T)]
#[verifier::reject_recursive_types(R)]
pub struct Dispatcher<T, R> {
    /// The reply channel of the envelope whose event is with the handler.
    reply: Option<UnboundedSender<R>>,
    /// The queue has ended: every handle is gone.
    finished: bool,
    /// The envelopes taken off the queue, in the order taken.
    taken: Ghost<Seq<Envelope<T, R>>>,
    /// The events handed to the handler, in the order handed.
    handed: Ghost<Seq<T>>,
    /// Each response offered, with the reply channel it was offered on, in
    /// the order offered.
    offered: Ghost<Seq<(UnboundedSender<R>, R)>>,
}

impl<T, R> Dispatcher<T, R> {
    /// The envelopes taken off the queue so far, in the order taken.
    pub closed spec fn taken(&self) -> Seq<Envelope<T, R>> {
        self.taken@
    }

    /// The events handed to the handler so far, in the order handed.
    pub closed spec fn handed(&self) -> Seq<T> {
        self.handed@
    }

    /// The responses offered so far, each with the reply channel it went on.
    pub closed spec fn offered(&self) -> Seq<(UnboundedSender<R>, R)> {
        self.offered@
    }

    /// Waiting for the next envelope.
    pub closed spec fn idle(&self) -> bool {
        self.reply is None && !self.finished
    }

    /// An event is with the handler and its response is owed.
    pub closed spec fn busy(&self) -> bool {
        self.reply is Some
    }

    /// The queue has ended; nothing more will come.
    pub closed spec fn finished(&self) -> bool {
        self.finished
    }

    /// Every envelope taken off the queue had its event handed to the
    /// handler, once and in the order taken; every one whose handler call has
    /// ended had its response offered once, on its own reply channel; at
    /// most one is with the handler.
    pub closed spec fn wf(&self) -> bool {
        &&& self.handed@.len() == self.taken@.len()
        &&& forall|i: int| 0 <= i < self.taken@.len() ==> #[trigger] self.handed@[i] == self.taken@[i].0
        &&& self.finished ==> self.reply is None
        &&& self.offered@.len() + (if self.reply is Some { 1int } else { 0int }) == self.taken@.len()
        &&& forall|i: int| 0 <= i < self.offered@.len() ==> #[trigger] self.offered@[i].0 == self.taken@[i].1
        &&& self.reply is Some ==> self.reply == Some(self.taken@.last().1)
    }

    /// A dispatcher that has taken nothing yet.
    pub fn new() -> (r: Self)
        ensures
            r.wf(),
            r.idle(),
            r.taken().len() == 0,
            r.handed().len() == 0,
            r.offered().len() == 0,
    {
        Dispatcher {
            reply: None,
            finished: false,
            taken: Ghost(Seq::empty()),
            handed: Ghost(Seq::empty()),
            offered: Ghost(Seq::empty()),
        }
    }

    /// Whether the dispatcher waits for the next envelope.
    pub fn is_idle(&self) -> (r: bool)
        ensures
            r == self.idle(),
    {
        self.reply.is_none() && !self.finished
    }

    /// Whether a response is owed for an event handed out.
    pub fn is_busy(&self) -> (r: bool)
        ensures
            r == self.busy(),
    {
        self.reply.is_some()
    }

    /// Whether the queue has ended.
    pub fn is_finished(&self) -> (r: bool)
        ensures
            r == self.finished(),
    {
        self.finished
    }

    /// Takes what the queue yielded next. An envelope: its event is returned,
    /// to be handed to the handler, and its reply channel is kept until the
    /// response comes. The end of the queue: nothing is returned and the
    /// dispatcher is finished.
    pub fn accept(&mut self, next: Option<Envelope<T, R>>) -> (r: Option<T>)
        requires
            old(self).wf(),
            old(self).idle(),
        ensures
            final(self).wf(),
            final(self).offered() == old(self).offered(),
            match next {
                Some(envelope) => {
                    &&& r == Some(envelope.0)
                    &&& final(self).busy()
                    &&& final(self).taken() == old(self).taken().push(envelope)
                    &&& final(self).handed() == old(self).handed().push(envelope.0)
                },
                None => {
                    &&& r is None
                    &&& final(self).finished()
                    &&& final(self).taken() == old(self).taken()
                    &&& final(self).handed() == old(self).handed()
                },
            },
    {
        match next {
            Some((event, reply)) => {
                proof {
                    self.taken@ = self.taken@.push((event, reply));
                    self.handed@ = self.handed@.push(event);
                }
                self.reply = Some(reply);
                Some(event)
            },
            None => {
                self.finished = true;
                None
            },
        }
    }

    /// Closes the open handler call with its response: gives back the reply
    /// channel of the envelope whose event is with the handler, paired with
    /// that response, to be sent on it, and records the offer. The
    /// dispatcher is then ready for the next envelope.
    pub fn settle(&mut self, response: R) -> (r: (UnboundedSender<R>, R))
        requires
            old(self).wf(),
            old(self).busy(),
        ensures
            r == (old(self).taken().last().1, response),
            final(self).wf(),
            final(self).idle(),
            final(self).taken() == old(self).taken(),
            final(self).handed() == old(self).handed(),
            final(self).offered() == old(self).offered().push(r),
    {
        let reply = self.reply.take().unwrap();
        proof {
            self.offered@ = self.offered@.push((reply, response));
        }
        (reply, response)
    }

    /// Offers the handler's response for the event last handed out on that
    /// envelope's reply channel, once, and lets the channel go, which tells
    /// the producer that no more will come. Whether the producer still
    /// listens decides the outcome; either way the dispatcher is ready for
    /// the next envelope.
    pub fn complete(&mut self, response: R) -> (r: Delivery)
        requires
            old(self).wf(),
            old(self).busy(),
        ensures
            final(self).wf(),
            final(self).idle(),
            final(self).taken() == old(self).taken(),
            final(self).handed() == old(self).handed(),
            final(self).offered() == old(self).offered().push((old(self).taken().last().1, response)),
    {
        let (reply, response) = self.settle(response);
        let sent = push(&reply, response);
        Delivery::of_send(&sent)
    }
}

/// A well-formed dispatcher is in exactly one of three phases: waiting for
/// an envelope, owing a response, or ended.
pub proof fn lemma_phases_exclusive<T, R>(d: &Dispatcher<T, R>)
    requires
        d.wf(),
    ensures
        !(d.idle() && d.busy()),
        !(d.idle() && d.finished()),
        !(d.busy() && d.finished()),
        d.idle() || d.busy() || d.finished(),
{
}

/// The handler is handed exactly the events that leave the queue: each one
/// once, none skipped, none added, in the order in which they left it.
pub proof fn lemma_handled_in_queue_order<T, R>(d: &Dispatcher<T, R>)
    requires
        d.wf(),
    ensures
        d.handed().len() == d.taken().len(),
        forall|i: int| 0 <= i < d.taken().len() ==> #[trigger] d.handed()[i] == d.taken()[i].0,
{
}

/// At most one handler call is open at any time, so the handler's state is
/// never reached by two calls at once; every envelope whose handler call has
/// ended has had exactly one response offered, on that envelope's own reply
/// channel; and when no call is open, every envelope taken has.
pub proof fn lemma_one_response_per_event<T, R>(d: &Dispatcher<T, R>)
    requires
        d.wf(),
    ensures
        d.offered().len() <= d.handed().len() <= d.offered().len() + 1,
        d.busy() ==> d.handed().len() == d.offered().len() + 1,
        !d.busy() ==> d.handed().len() == d.offered().len(),
        forall|i: int| 0 <= i < d.offered().len() ==> #[trigger] d.offered()[i].0 == d.taken()[i].1,
{
}

} // verus!
