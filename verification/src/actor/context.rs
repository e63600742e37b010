//! Contexts: the application-facing handle on one scheduler, the per-actor
//! lifecycle status, and the per-invocation handler context.

use crate::actor::scheduler::ActorScheduler;
use crate::actor::{ActorId, ActorRef, ActorRefError};
use vstd::prelude::*;

verus! {

/// Application-facing handle on one scheduler.  Spawn, lookup and removal
/// forward to the scheduler's registry.  A running embedding keeps one
/// shared context for the process and serializes every request through the
/// scheduler's own mailbox; within that discipline the operations below are
/// applied one at a time, which is what their contracts describe.
pub struct ActorContext {
    scheduler: ActorScheduler,
}

impl ActorContext {
    /// The scheduler state this context wraps.
    pub closed spec fn spec_scheduler(self) -> ActorScheduler {
        self.scheduler
    }

    /// Well-formedness of the underlying registry.
    pub open spec fn wf(self) -> bool {
        self.spec_scheduler().wf()
    }

    /// A context over a fresh scheduler with an empty registry.
    pub fn new() -> (r: ActorContext)
        ensures
            r.wf(),
            r.spec_scheduler().spec_actors() == Map::<ActorId, ActorRef>::empty(),
            r.spec_scheduler().spec_next_id() == 0,
    {
        ActorContext { scheduler: ActorScheduler::new() }
    }

    /// A context bound to an explicit scheduler, for embeddings that keep an
    /// isolated registry of their own.
    pub fn from(scheduler: ActorScheduler) -> (r: ActorContext)
        ensures
            r.spec_scheduler() == scheduler,
    {
        ActorContext { scheduler }
    }

    /// One-time construction of the process-wide default context.  This is
    /// not itself the shared accessor: the embedding calls it exactly once,
    /// lazily, keeps the one instance it returns alive for the process, and
    /// serves every later access from that same instance, so actors spawned
    /// through one access are visible to lookups through another.  What this
    /// function fixes is that instance's initial state: an empty, well-formed
    /// registry.
    pub fn current_context() -> (r: ActorContext)
        ensures
            r.wf(),
            r.spec_scheduler().spec_actors() == Map::<ActorId, ActorRef>::empty(),
            r.spec_scheduler().spec_next_id() == 0,
    {
        ActorContext::new()
    }

    /// Register a new actor of the type standing behind `type_key` and
    /// return its reference.  The embedding then moves the actor value into
    /// the dispatch loop it starts for this registration.  Fails with
    /// [`ActorRefError::ActorUnavailable`] exactly when no further identity
    /// can be allocated.
    pub fn new_actor(&mut self, type_key: u64) -> (r: Result<ActorRef, ActorRefError>)
        requires
            old(self).wf(),
        ensures
            final(self).wf(),
            old(self).spec_scheduler().spec_next_id() < ActorId::MAX ==> {
                let fresh = ActorRef { id: old(self).spec_scheduler().spec_next_id(), type_key };
                &&& r == Ok::<ActorRef, ActorRefError>(fresh)
                &&& !old(self).spec_scheduler().spec_actors().contains_key(fresh.id)
                &&& final(self).spec_scheduler().spec_actors()
                    == old(self).spec_scheduler().spec_actors().insert(fresh.id, fresh)
                &&& final(self).spec_scheduler().spec_next_id()
                    == old(self).spec_scheduler().spec_next_id() + 1
            },
            old(self).spec_scheduler().spec_next_id() == ActorId::MAX ==> {
                &&& r == Err::<ActorRef, ActorRefError>(ActorRefError::ActorUnavailable)
                &&& final(self).spec_scheduler().spec_actors()
                    == old(self).spec_scheduler().spec_actors()
                &&& final(self).spec_scheduler().spec_next_id()
                    == old(self).spec_scheduler().spec_next_id()
            },
    {
        self.scheduler.register_actor(type_key)
    }

    /// Look up the live reference for `id`, checked against the caller's
    /// expected actor type.  An absent or mistyped identity yields nothing,
    /// never an error.
    pub fn get_actor(&mut self, id: ActorId, type_key: u64) -> (r: Option<ActorRef>)
        ensures
            final(self).spec_scheduler().spec_actors()
                == old(self).spec_scheduler().spec_actors(),
            final(self).spec_scheduler().spec_next_id()
                == old(self).spec_scheduler().spec_next_id(),
            r == if old(self).spec_scheduler().spec_actors().contains_key(id)
                && old(self).spec_scheduler().spec_actors()[id].type_key == type_key {
                Some(old(self).spec_scheduler().spec_actors()[id])
            } else {
                None::<ActorRef>
            },
    {
        self.scheduler.get_actor(id, type_key)
    }

    /// Delete the mapping for `id` and return the last-known reference.
    /// Idempotent: an identity that is not live yields nothing, never an
    /// error.
    pub fn remove_actor(&mut self, id: ActorId) -> (r: Option<ActorRef>)
        requires
            old(self).wf(),
        ensures
            final(self).wf(),
            final(self).spec_scheduler().spec_actors()
                == old(self).spec_scheduler().spec_actors().remove(id),
            final(self).spec_scheduler().spec_next_id()
                == old(self).spec_scheduler().spec_next_id(),
            r == if old(self).spec_scheduler().spec_actors().contains_key(id) {
                Some(old(self).spec_scheduler().spec_actors()[id])
            } else {
                None::<ActorRef>
            },
    {
        self.scheduler.remove_actor(id)
    }
}

/// Lifecycle phase of one actor.  Every actor moves through these phases in
/// order, and the phase never regresses while the actor is live; only
/// removal followed by a fresh registration starts the machine over.
#[derive(Clone, Copy, Debug, Eq, PartialEq, Structural)]
pub enum ActorStatus {
    /// Registered; the mailbox is not yet accepting dispatch.
    Starting,
    /// The mailbox is accepting dispatch.
    Started,
    /// Winding down; no new work is accepted.
    Stopping,
    /// The mailbox is closed.
    Stopped,
}

impl ActorStatus {
    /// Position of the phase in the lifecycle order.
    pub open spec fn rank(self) -> int {
        match self {
            ActorStatus::Starting => 0,
            ActorStatus::Started => 1,
            ActorStatus::Stopping => 2,
            ActorStatus::Stopped => 3,
        }
    }

    /// Whether the lifecycle may move from this phase to `next`: phases only
    /// advance, never regress.
    pub open spec fn can_advance_to(self, next: ActorStatus) -> bool {
        self.rank() <= next.rank()
    }
}

/// Monotonicity of the lifecycle: allowed steps compose, so along any chain
/// of allowed transitions the phase never regresses.
pub proof fn lemma_status_monotonic(a: ActorStatus, b: ActorStatus, c: ActorStatus)
    requires
        a.can_advance_to(b),
        b.can_advance_to(c),
    ensures
        a.can_advance_to(c),
{
}

/// Per-invocation context passed to each handler call: the actor's own
/// identity, its current lifecycle status, and a context for nested spawn
/// and lookup.
pub struct ActorHandlerContext {
    actor_id: ActorId,
    status: ActorStatus,
    context: ActorContext,
}

impl ActorHandlerContext {
    /// The identity of the actor being invoked.
    pub closed spec fn spec_actor_id(self) -> ActorId {
        self.actor_id
    }

    /// The actor's current lifecycle status.
    pub closed spec fn spec_status(self) -> ActorStatus {
        self.status
    }

    /// The context available to the handler for nested operations.
    pub closed spec fn spec_context(self) -> ActorContext {
        self.context
    }

    /// Bundle the invocation context for one actor.
    pub fn new(actor_id: ActorId, context: ActorContext, status: ActorStatus) -> (r:
        ActorHandlerContext)
        ensures
            r.spec_actor_id() == actor_id,
            r.spec_status() == status,
            r.spec_context() == context,
    {
        ActorHandlerContext { actor_id, status, context }
    }

    /// The context for nested spawn and lookup from inside a handler.
    pub fn actor_context_mut(&mut self) -> (r: &mut ActorContext)
        ensures
            *r == old(self).spec_context(),
            final(self).spec_context() == *final(r),
            final(self).spec_actor_id() == old(self).spec_actor_id(),
            final(self).spec_status() == old(self).spec_status(),
    {
        &mut self.context
    }

    /// The identity of the actor being invoked.
    pub fn actor_id(&self) -> (r: &ActorId)
        ensures
            *r == self.spec_actor_id(),
    {
        &self.actor_id
    }

    /// Advance the lifecycle status.  The lifecycle is monotonic: the new
    /// phase may not stand before the current one.
    pub fn set_status(&mut self, state: ActorStatus)
        requires
            old(self).spec_status().can_advance_to(state),
        ensures
            final(self).spec_status() == state,
            final(self).spec_actor_id() == old(self).spec_actor_id(),
            final(self).spec_context() == old(self).spec_context(),
    {
        self.status = state
    }

    /// The current lifecycle status, for handler logic that observes the
    /// phase.
    pub fn get_status(&self) -> (r: &ActorStatus)
        ensures
            *r == self.spec_status(),
    {
        &self.status
    }
}

} // verus!
