//! The scheduler's registry of live actors.
//!
//! The scheduler is the single authority mapping an [`ActorId`] to its
//! registered reference: it alone creates and deletes that mapping.  In a
//! running embedding the scheduler is itself driven as an actor, so the
//! register, lookup and remove requests below are applied one at a time from
//! its own mailbox; no further locking is needed around this state.

use crate::actor::{ActorId, ActorRef, ActorRefError};
use std::collections::HashMap;
use vstd::prelude::*;

verus! {

broadcast use vstd::std_specs::hash::group_hash_axioms;

/// Registry of live actors: allocates identities and maps each live
/// identity to the reference handed out at registration.
pub struct ActorScheduler {
    next_id: ActorId,
    actors: HashMap<ActorId, ActorRef>,
}

impl ActorScheduler {
    /// The identity the next registration will receive.  Identities count up
    /// from zero and are never reused: every identity ever allocated by this
    /// scheduler is below this bound.
    pub closed spec fn spec_next_id(self) -> ActorId {
        self.next_id
    }

    /// The registry as a map from live identity to registered reference.
    pub closed spec fn spec_actors(self) -> Map<ActorId, ActorRef> {
        self.actors@
    }

    /// Well-formedness: every live entry is stored under its own identity,
    /// and every live identity has already been allocated.
    pub open spec fn wf(self) -> bool {
        forall|i: ActorId| #[trigger] self.spec_actors().contains_key(i)
            ==> self.spec_actors()[i].id == i && i < self.spec_next_id()
    }

    /// An empty registry: no live actors, identities starting at zero.
    pub fn new() -> (r: ActorScheduler)
        ensures
            r.wf(),
            r.spec_actors() == Map::<ActorId, ActorRef>::empty(),
            r.spec_next_id() == 0,
    {
        ActorScheduler { next_id: 0, actors: HashMap::new() }
    }

    /// Allocate a fresh identity and store a reference to the new actor
    /// under it.  Succeeds exactly while the identity space is not
    /// exhausted; the returned reference carries the fresh identity, which
    /// no earlier registration ever held.
    pub fn register_actor(&mut self, type_key: u64) -> (r: Result<ActorRef, ActorRefError>)
        requires
            old(self).wf(),
        ensures
            final(self).wf(),
            old(self).spec_next_id() < ActorId::MAX ==> {
                let fresh = ActorRef { id: old(self).spec_next_id(), type_key };
                &&& r == Ok::<ActorRef, ActorRefError>(fresh)
                &&& !old(self).spec_actors().contains_key(fresh.id)
                &&& final(self).spec_actors() == old(self).spec_actors().insert(fresh.id, fresh)
                &&& final(self).spec_next_id() == old(self).spec_next_id() + 1
            },
            old(self).spec_next_id() == ActorId::MAX ==> {
                &&& r == Err::<ActorRef, ActorRefError>(ActorRefError::ActorUnavailable)
                &&& final(self).spec_actors() == old(self).spec_actors()
                &&& final(self).spec_next_id() == old(self).spec_next_id()
            },
    {
        if self.next_id == ActorId::MAX {
            Err(ActorRefError::ActorUnavailable)
        } else {
            let id = self.next_id;
            let actor_ref = ActorRef { id, type_key };
            self.actors.insert(id, actor_ref);
            self.next_id = id + 1;
            proof {
                assert forall|i: ActorId| #[trigger] self.spec_actors().contains_key(i)
                    implies self.spec_actors()[i].id == i && i < self.spec_next_id() by {
                    if i != id {
                        assert(old(self).spec_actors().contains_key(i));
                    }
                }
            }
            Ok(actor_ref)
        }
    }

    /// Look up the live reference registered under `id`, checked against the
    /// caller's expected actor type.  Returns nothing when the identity is
    /// absent or registered under another type key; an unknown identity is
    /// not an error.
    pub fn get_actor(&mut self, id: ActorId, type_key: u64) -> (r: Option<ActorRef>)
        ensures
            final(self).spec_actors() == old(self).spec_actors(),
            final(self).spec_next_id() == old(self).spec_next_id(),
            r == if old(self).spec_actors().contains_key(id)
                && old(self).spec_actors()[id].type_key == type_key {
                Some(old(self).spec_actors()[id])
            } else {
                None::<ActorRef>
            },
    {
        match self.actors.get(&id) {
            Some(actor_ref) => {
                if actor_ref.type_key == type_key {
                    Some(*actor_ref)
                } else {
                    None
                }
            },
            None => None,
        }
    }

    /// Delete the mapping for `id` and return the last-known reference.
    /// Removal is idempotent: an identity that is absent — never registered,
    /// or already removed — yields nothing, not an error.
    pub fn remove_actor(&mut self, id: ActorId) -> (r: Option<ActorRef>)
        requires
            old(self).wf(),
        ensures
            final(self).wf(),
            final(self).spec_actors() == old(self).spec_actors().remove(id),
            final(self).spec_next_id() == old(self).spec_next_id(),
            r == if old(self).spec_actors().contains_key(id) {
                Some(old(self).spec_actors()[id])
            } else {
                None::<ActorRef>
            },
    {
        let removed = self.actors.remove(&id);
        proof {
            assert forall|i: ActorId| #[trigger] self.spec_actors().contains_key(i)
                implies self.spec_actors()[i].id == i && i < self.spec_next_id() by {
                assert(old(self).spec_actors().contains_key(i));
            }
        }
        removed
    }
}

/// Round trip of spawn and removal, as `register_actor`, `remove_actor` and
/// `get_actor` describe the registry: registering allocates an identity that
/// is fresh, removing that identity yields exactly the reference handed out
/// at registration, and a lookup of the identity afterwards finds nothing.
pub proof fn lemma_spawn_remove_round_trip(s: ActorScheduler, type_key: u64)
    requires
        s.wf(),
        s.spec_next_id() < ActorId::MAX,
    ensures
        ({
            let fresh = ActorRef { id: s.spec_next_id(), type_key };
            let spawned = s.spec_actors().insert(fresh.id, fresh);
            &&& !s.spec_actors().contains_key(fresh.id)
            &&& spawned.contains_key(fresh.id)
            &&& spawned[fresh.id] == fresh
            &&& !spawned.remove(fresh.id).contains_key(fresh.id)
        }),
{
}

/// An identity the scheduler never allocated — one at or above the
/// allocation bound — is never live, so `get_actor` and `remove_actor` find
/// nothing for it and do not fail.
pub proof fn lemma_unknown_id_is_absent(s: ActorScheduler, id: ActorId)
    requires
        s.wf(),
        id >= s.spec_next_id(),
    ensures
        !s.spec_actors().contains_key(id),
{
}

/// Removal is idempotent: once an identity is removed it is no longer live,
/// so removing it again changes nothing and yields nothing.
pub proof fn lemma_remove_idempotent(s: ActorScheduler, id: ActorId)
    ensures
        !s.spec_actors().remove(id).contains_key(id),
        s.spec_actors().remove(id).remove(id) == s.spec_actors().remove(id),
{
    assert(s.spec_actors().remove(id).remove(id) =~= s.spec_actors().remove(id));
}

} // verus!
