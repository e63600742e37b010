//! Actor identity, references, and the error surface of the runtime core.

pub mod context;
pub mod message;
pub mod scheduler;

use vstd::prelude::*;

verus! {

/// Identifier assigned to an actor at registration; stable for the actor's
/// life and never reused by the same scheduler.
pub type ActorId = u64;

/// Marker for types whose values can be spawned as actors.  An actor is an
/// isolated bundle of mutable state, reachable only through messages; the
/// handlers it supports are declared through `Handler` implementations.
pub trait Actor {

}

/// Why a request against an actor could not complete.
#[derive(Clone, Copy, Debug, PartialEq, Eq, Structural)]
pub enum ActorRefError {
    /// The referenced actor's mailbox is closed, or its registration failed.
    ActorUnavailable,
}

/// Lightweight, freely copyable handle to one registered actor.
///
/// A reference does not own actor state; it carries the identity the
/// scheduler allocated and the key of the actor's concrete type, under which
/// lookups are checked.
#[derive(Clone, Copy, Debug, PartialEq, Eq, Structural)]
pub struct ActorRef {
    /// The identity the scheduler allocated at registration.
    pub id: ActorId,
    /// Key standing for the actor's concrete type; a lookup under another
    /// key finds nothing.
    pub type_key: u64,
}

} // verus!
