//! A minimal actor-model runtime core.
//!
//! Isolated units of state ("actors") communicate exclusively through typed
//! messages; each actor's state is mutated by messages processed one at a
//! time.  This crate holds the runtime's decision core: the scheduler's
//! registry of live actors, the mailbox and dispatch-envelope model, the
//! lifecycle status machine, and the remote handler registry.  An embedding
//! drives these from its own event loop; the concrete transport and the
//! asynchronous plumbing live with the embedder.

pub mod actor;
pub mod remote;
