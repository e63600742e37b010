//! Messages, dispatch envelopes, one-shot response channels, and the
//! mailbox.
//!
//! Each actor owns one mailbox: an ordered queue of dispatch envelopes.  An
//! envelope pairs one message with a single-use response channel; invoking
//! it against the actor consumes the message, runs the statically bound
//! handler, and signals the produced result on the channel.  A caller that
//! abandoned its request leaves the channel closed; signalling it then
//! discards the result silently and is never an error.

use crate::actor::context::ActorHandlerContext;
use crate::actor::ActorRefError;
use core::marker::PhantomData;
use vstd::prelude::*;

verus! {

/// A message: a value with a statically associated result type, consumed
/// exactly once by dispatch.
pub trait Message {
    /// What handling one value of this message type produces.
    type Result;
}

/// The per-(actor type, message type) handling capability: computes a
/// message's result from the actor's current state, under the invocation
/// context the runtime passes in.
pub trait Handler<M: Message> {
    /// Handle one message against this actor's state.
    fn handle(&mut self, message: M, ctx: &mut ActorHandlerContext) -> M::Result;
}

/// Outcome of a dispatch round trip as reported to an embedding.
#[derive(Debug)]
pub enum MessageResult<T> {
    /// The handler ran and produced this result.
    Completed(T),
    /// The round trip could not complete.
    Error,
}

/// Model of a one-shot response channel's sending half.  The channel
/// conveys at most one result to the original caller; a channel whose
/// receiver was dropped is closed, and sending on it is a silent no-op.
pub struct ResponseSender<T> {
    open: bool,
    sent: Option<T>,
}

impl<T> ResponseSender<T> {
    /// Whether the matching receiver still awaits the response.
    pub closed spec fn is_open(self) -> bool {
        self.open
    }

    /// The response recorded on the channel, if one was delivered.
    pub closed spec fn response(self) -> Option<T> {
        self.sent
    }

    /// A channel whose receiver is awaiting the response.
    pub fn new() -> (r: ResponseSender<T>)
        ensures
            r.is_open(),
            r.response() is None,
    {
        ResponseSender { open: true, sent: None }
    }

    /// A channel whose receiver was dropped before any response was
    /// signalled: the caller abandoned the request.
    pub fn abandoned() -> (r: ResponseSender<T>)
        ensures
            !r.is_open(),
            r.response() is None,
    {
        ResponseSender { open: false, sent: None }
    }

    /// Signal the response.  The channel delivers at most once: a value is
    /// recorded only on an open channel that has not delivered yet, and an
    /// already delivered response is never overwritten.  Sending to a
    /// closed receiver is not an error — the result is discarded silently.
    pub fn send(&mut self, value: T)
        ensures
            final(self).is_open() == old(self).is_open(),
            final(self).response() == if old(self).is_open() && old(self).response() is None {
                Some(value)
            } else {
                old(self).response()
            },
    {
        if self.open && self.sent.is_none() {
            self.sent = Some(value);
        }
    }

    /// What the awaiting caller observes once dispatch is done: the
    /// response, if one was delivered while the channel was open.
    pub fn into_response(self) -> (r: Option<T>)
        ensures
            r == self.response(),
    {
        self.sent
    }
}

/// A dispatch envelope: one message bound to one actor type, together with
/// the response channel of the caller that sent it.  The mailbox stores
/// envelopes behind the uniform [`ActorMessageHandler`] capability, so its
/// queue element type is independent of the concrete message type.
pub struct ActorMessage<A, M: Message> where A: Handler<M> {
    msg: Option<M>,
    sender: ResponseSender<M::Result>,
    _actor: PhantomData<A>,
}

impl<A, M: Message> ActorMessage<A, M> where A: Handler<M> {
    /// The held message, until dispatch consumes it.
    pub closed spec fn spec_msg(self) -> Option<M> {
        self.msg
    }

    /// The held response channel.
    pub closed spec fn spec_sender(self) -> ResponseSender<M::Result> {
        self.sender
    }

    /// Whether dispatch has already consumed the held message.
    pub open spec fn is_consumed(self) -> bool {
        self.spec_msg() is None
    }

    /// Wrap one message and the sending half of its caller's response
    /// channel into an envelope.
    pub fn new(msg: M, sender: ResponseSender<M::Result>) -> (r: ActorMessage<A, M>)
        ensures
            r.spec_msg() == Some(msg),
            r.spec_sender() == sender,
            !r.is_consumed(),
    {
        ActorMessage { msg: Some(msg), sender, _actor: PhantomData }
    }

    /// Invoke the envelope against its actor: take the held message, run the
    /// statically bound handler, and signal the produced result on the held
    /// channel.  Consumes the message exactly once; re-dispatching an
    /// already consumed envelope is a logic error, ruled out here.  If the
    /// caller abandoned the request — the channel is closed — the handler
    /// still runs and its result is discarded silently, never an error.
    pub fn handle_msg(&mut self, actor: &mut A, ctx: &mut ActorHandlerContext)
        requires
            !old(self).is_consumed(),
        ensures
            final(self).is_consumed(),
            final(self).spec_sender().is_open() == old(self).spec_sender().is_open(),
            old(self).spec_sender().is_open() && old(self).spec_sender().response() is None
                ==> final(self).spec_sender().response() is Some,
            !(old(self).spec_sender().is_open() && old(self).spec_sender().response() is None)
                ==> final(self).spec_sender().response() == old(self).spec_sender().response(),
    {
        let taken = self.msg.take();
        match taken {
            Some(message) => {
                let result = actor.handle(message, ctx);
                self.sender.send(result);
            },
            None => {},
        }
    }

    /// Hand the envelope's response channel back to the awaiting caller's
    /// side, yielding the delivered response if there is one.
    pub fn into_response(self) -> (r: Option<M::Result>)
        ensures
            r == self.spec_sender().response(),
    {
        self.sender.into_response()
    }
}

/// The uniform invoke-against-the-actor capability the mailbox stores.
/// Implemented once per (actor type, message type) pair by
/// [`ActorMessage`]; an embedding boxes envelopes behind this interface so
/// that new message types can be added without touching the mailbox's
/// element type.
pub trait ActorMessageHandler<A> {
    /// Dispatch the held message against the actor.  An envelope whose
    /// message was already consumed does nothing.
    fn handle(&mut self, actor: &mut A, ctx: &mut ActorHandlerContext);
}

impl<A, M: Message> ActorMessageHandler<A> for ActorMessage<A, M> where A: Handler<M> {
    fn handle(&mut self, actor: &mut A, ctx: &mut ActorHandlerContext)
        ensures
            final(self).is_consumed(),
            old(self).is_consumed() ==> *final(self) == *old(self),
            !old(self).is_consumed() ==> {
                &&& final(self).spec_sender().is_open() == old(self).spec_sender().is_open()
                &&& (old(self).spec_sender().is_open() && old(self).spec_sender().response()
                    is None ==> final(self).spec_sender().response() is Some)
                &&& (!(old(self).spec_sender().is_open() && old(self).spec_sender().response()
                    is None) ==> final(self).spec_sender().response()
                    == old(self).spec_sender().response())
            },
    {
        if self.msg.is_some() {
            self.handle_msg(actor, ctx);
        }
    }
}

/// An actor's mailbox: a single-consumer, ordered queue of pending
/// envelopes.  Envelopes leave in the order they arrived, one at a time, so
/// within one actor at most one handler invocation is ever in flight — the
/// structural property that makes locks around actor state unnecessary.
pub struct Mailbox<E> {
    queue: Vec<E>,
    open: bool,
}

impl<E> Mailbox<E> {
    /// The pending envelopes, oldest first.  Dispatch takes them from the
    /// front, so this sequence is the dispatch order.
    pub closed spec fn pending(self) -> Seq<E> {
        self.queue@
    }

    /// Whether the mailbox still accepts envelopes.  It closes when the
    /// actor stops or is removed.
    pub closed spec fn is_open(self) -> bool {
        self.open
    }

    /// An empty, open mailbox.
    pub fn new() -> (r: Mailbox<E>)
        ensures
            r.is_open(),
            r.pending() == Seq::<E>::empty(),
    {
        Mailbox { queue: Vec::new(), open: true }
    }

    /// Enqueue an envelope at the back.  Fails with
    /// [`ActorRefError::ActorUnavailable`] exactly when the mailbox is
    /// closed; a closed mailbox and its pending envelopes are left as they
    /// are.
    pub fn enqueue(&mut self, envelope: E) -> (r: Result<(), ActorRefError>)
        ensures
            final(self).is_open() == old(self).is_open(),
            old(self).is_open() ==> r == Ok::<(), ActorRefError>(()) && final(self).pending()
                == old(self).pending().push(envelope),
            !old(self).is_open() ==> r == Err::<(), ActorRefError>(ActorRefError::ActorUnavailable)
                && final(self).pending() == old(self).pending(),
    {
        if self.open {
            self.queue.push(envelope);
            Ok(())
        } else {
            Err(ActorRefError::ActorUnavailable)
        }
    }

    /// Take the oldest pending envelope, if any: dispatch order is arrival
    /// order.
    pub fn dequeue(&mut self) -> (r: Option<E>)
        ensures
            final(self).is_open() == old(self).is_open(),
            old(self).pending().len() == 0 ==> r is None
                && final(self).pending() == old(self).pending(),
            old(self).pending().len() > 0 ==> r == Some(old(self).pending()[0])
                && final(self).pending() == old(self).pending().drop_first(),
    {
        if self.queue.len() == 0 {
            None
        } else {
            Some(self.queue.remove(0))
        }
    }

    /// Stop accepting envelopes.  Envelopes already pending stay, so a
    /// dispatch loop can still drain them.
    pub fn close(&mut self)
        ensures
            !final(self).is_open(),
            final(self).pending() == old(self).pending(),
    {
        self.open = false;
    }

    /// How many envelopes are pending.
    pub fn len(&self) -> (r: usize)
        ensures
            r == self.pending().len(),
    {
        self.queue.len()
    }

    /// Take every pending envelope, in dispatch order: the sequence handed
    /// to the dispatch loop is exactly the sequence in which the envelopes
    /// arrived.
    pub fn drain(&mut self) -> (r: Vec<E>)
        ensures
            final(self).is_open() == old(self).is_open(),
            final(self).pending().len() == 0,
            r@ == old(self).pending(),
    {
        let mut out: Vec<E> = Vec::new();
        loop
            invariant
                out@ + self.pending() == old(self).pending(),
                self.is_open() == old(self).is_open(),
            decreases self.pending().len(),
        {
            match self.dequeue() {
                Some(envelope) => {
                    out.push(envelope);
                },
                None => {
                    assert(out@ =~= old(self).pending());
                    return out;
                },
            }
        }
    }
}

/// First in, first out: envelopes enqueued onto one mailbox are dispatched
/// in send order.  After a sender enqueues `e1` and then `e2` onto a
/// mailbox holding `q`, `e1` stands strictly before `e2` in the pending
/// sequence — and `dequeue` and `drain` hand envelopes out in exactly that
/// sequence, so `e1`'s handler invocation comes first.
pub proof fn lemma_fifo_order<E>(q: Seq<E>, e1: E, e2: E)
    ensures
        ({
            let after = q.push(e1).push(e2);
            &&& after.len() == q.len() + 2
            &&& after[q.len() as int] == e1
            &&& after[q.len() as int + 1] == e2
        }),
{
}

} // verus!
