//! Remote handler registry: two read-only tables populated once at startup.
//!
//! The registry decouples "a message with a known wire-level name arrived"
//! from "which compiled handler runs it".  One table lets a sender that
//! knows the compiled types discover the name to tag an outgoing envelope
//! with; the other lets a receiver that knows only the name reach the
//! registered handler factory.  Compiled type identity is carried as a plain
//! type key: the embedding derives one key per (actor type, message type)
//! pair from its compiled type identities.

use crate::actor::context::ActorContext;
use crate::actor::message::Message;
use crate::actor::{Actor, ActorId, ActorRef, ActorRefError};
use core::marker::PhantomData;
use std::collections::HashMap;
use vstd::prelude::*;

verus! {

broadcast use vstd::std_specs::hash::group_hash_axioms;

/// Why a registration was rejected.
#[derive(Clone, Copy, Debug, PartialEq, Eq, Structural)]
pub enum RegistrationError {
    /// The handler name is already registered.  Handler names must be
    /// unique; registering one twice is a configuration error.
    DuplicateName,
}

/// A distinct addressable actor reserved for future peer-directory
/// responsibilities; it holds no tables in this core.
pub struct RemoteRegistry {}

impl Actor for RemoteRegistry {

}

impl RemoteRegistry {
    /// Register the remote registry actor with the scheduler behind `ctx`
    /// and return its reference, under the embedding's type key for it.
    /// Fails exactly when the scheduler can allocate no further identity.
    pub fn new(ctx: &mut ActorContext, type_key: u64) -> (r: Result<ActorRef, ActorRefError>)
        requires
            old(ctx).wf(),
        ensures
            final(ctx).wf(),
            old(ctx).spec_scheduler().spec_next_id() < ActorId::MAX ==> {
                let fresh = ActorRef { id: old(ctx).spec_scheduler().spec_next_id(), type_key };
                &&& r == Ok::<ActorRef, ActorRefError>(fresh)
                &&& !old(ctx).spec_scheduler().spec_actors().contains_key(fresh.id)
                &&& final(ctx).spec_scheduler().spec_actors()
                    == old(ctx).spec_scheduler().spec_actors().insert(fresh.id, fresh)
                &&& final(ctx).spec_scheduler().spec_next_id()
                    == old(ctx).spec_scheduler().spec_next_id() + 1
            },
            old(ctx).spec_scheduler().spec_next_id() == ActorId::MAX ==> {
                &&& r == Err::<ActorRef, ActorRefError>(ActorRefError::ActorUnavailable)
                &&& final(ctx).spec_scheduler().spec_actors()
                    == old(ctx).spec_scheduler().spec_actors()
                &&& final(ctx).spec_scheduler().spec_next_id()
                    == old(ctx).spec_scheduler().spec_next_id()
            },
    {
        ctx.new_actor(type_key)
    }
}

/// The first handler registered under `name`, scanning `entries` front to
/// back.  Registration keeps names unique, so at most one entry can match.
pub open spec fn spec_find<H>(entries: Seq<(String, H)>, name: Seq<char>) -> Option<H>
    decreases entries.len(),
{
    if entries.len() == 0 {
        None
    } else if entries[0].0@ == name {
        Some(entries[0].1)
    } else {
        spec_find(entries.drop_first(), name)
    }
}

/// A name resolves to nothing exactly when no entry is registered under it:
/// an unregistered name is a lookup miss, not a failure.
pub proof fn lemma_find_none_means_unregistered<H>(entries: Seq<(String, H)>, name: Seq<char>)
    ensures
        (spec_find(entries, name) is None) <==> (forall|i: int|
            0 <= i < entries.len() ==> #[trigger] entries[i].0@ != name),
    decreases entries.len(),
{
    if entries.len() > 0 {
        let tail = entries.drop_first();
        lemma_find_none_means_unregistered(tail, name);
        assert(forall|i: int| 0 <= i < tail.len() ==> #[trigger] tail[i] == entries[i + 1]);
        if entries[0].0@ == name {
            assert(spec_find(entries, name) is Some);
        } else if spec_find(tail, name) is None {
            assert forall|i: int| 0 <= i < entries.len() implies #[trigger] entries[i].0@
                != name by {
                if i > 0 {
                    assert(tail[i - 1] == entries[i]);
                }
            }
        } else {
            let k = choose|k: int| 0 <= k < tail.len() && #[trigger] tail[k].0@ == name;
            assert(entries[k + 1].0@ == name);
        }
    }
}

/// The first match decides the lookup: if `entries[i]` is registered under
/// `name` and no earlier entry is, the lookup yields that entry's handler.
pub proof fn lemma_find_first_match<H>(entries: Seq<(String, H)>, name: Seq<char>, i: int)
    requires
        0 <= i < entries.len(),
        entries[i].0@ == name,
        forall|j: int| 0 <= j < i ==> #[trigger] entries[j].0@ != name,
    ensures
        spec_find(entries, name) == Some(entries[i].1),
    decreases entries.len(),
{
    if i > 0 {
        assert(forall|j: int|
            0 <= j < entries.drop_first().len() ==> #[trigger] entries.drop_first()[j]
                == entries[j + 1]);
        lemma_find_first_match(entries.drop_first(), name, i - 1);
    }
}

/// Registering a fresh name makes it resolvable: if `name` is not yet
/// registered, then after appending its entry the lookup yields exactly the
/// registered handler.
pub proof fn lemma_find_after_register<H>(entries: Seq<(String, H)>, name: String, handler: H)
    requires
        spec_find(entries, name@) is None,
    ensures
        spec_find(entries.push((name, handler)), name@) == Some(handler),
{
    lemma_find_none_means_unregistered(entries, name@);
    let pushed = entries.push((name, handler));
    assert(pushed[entries.len() as int] == (name, handler));
    lemma_find_first_match(pushed, name@, entries.len() as int);
}

/// Remote round trip: right after a successful registration of (type key,
/// name, handler), the type key resolves to that name and the name resolves
/// to that handler — as `register`, `handler_name` and `get_handler`
/// describe the tables.  A name that was never registered resolves to
/// nothing ([`lemma_find_none_means_unregistered`]).
pub proof fn lemma_remote_round_trip<H>(
    entries: Seq<(String, H)>,
    types: Map<u64, Seq<char>>,
    type_key: u64,
    name: String,
    handler: H,
)
    requires
        spec_find(entries, name@) is None,
    ensures
        spec_find(entries.push((name, handler)), name@) == Some(handler),
        types.insert(type_key, name@).contains_key(type_key),
        types.insert(type_key, name@)[type_key] == name@,
{
    lemma_find_after_register(entries, name, handler);
}

/// Registry mapping a wire-level handler name to its registered handler
/// factory, and a (actor type, message type) key to its wire-level name.
/// Both tables are populated once at startup and queried read-only.  The
/// factory type `H` is the embedding's: typically a boxed constructor for a
/// fresh type-erased handler per remote invocation.
pub struct RemoteHandler<H> {
    handler_types: HashMap<u64, String>,
    handlers: Vec<(String, H)>,
}

impl<H> RemoteHandler<H> {
    /// The name table: type key to wire-level name.
    pub closed spec fn spec_types(self) -> Map<u64, Seq<char>> {
        self.handler_types@.map_values(|s: String| s@)
    }

    /// The handler table: registration order, name beside factory.
    pub closed spec fn spec_handlers(self) -> Seq<(String, H)> {
        self.handlers@
    }

    /// Well-formedness: handler names are unique, so a name decides its
    /// handler.
    pub open spec fn wf(self) -> bool {
        forall|i: int, j: int|
            #![trigger self.spec_handlers()[i], self.spec_handlers()[j]]
            0 <= i < j < self.spec_handlers().len() ==> self.spec_handlers()[i].0@
                != self.spec_handlers()[j].0@
    }

    /// An empty registry, ready to take the startup registrations.
    pub fn new() -> (r: RemoteHandler<H>)
        ensures
            r.wf(),
            r.spec_handlers() == Seq::<(String, H)>::empty(),
            r.spec_types() == Map::<u64, Seq<char>>::empty(),
    {
        let r = RemoteHandler { handler_types: HashMap::new(), handlers: Vec::new() };
        proof {
            assert(r.spec_types() =~= Map::<u64, Seq<char>>::empty());
        }
        r
    }

    /// Record one startup registration: the pair standing behind `type_key`
    /// resolves to `name` on the wire, and `name` resolves to `handler`.
    /// A name registered twice is a configuration error and is rejected,
    /// leaving the registry as it was.
    pub fn register(&mut self, type_key: u64, name: String, handler: H) -> (r: Result<
        (),
        RegistrationError,
    >)
        requires
            old(self).wf(),
        ensures
            final(self).wf(),
            spec_find(old(self).spec_handlers(), name@) is Some ==> {
                &&& r == Err::<(), RegistrationError>(RegistrationError::DuplicateName)
                &&& final(self).spec_handlers() == old(self).spec_handlers()
                &&& final(self).spec_types() == old(self).spec_types()
            },
            spec_find(old(self).spec_handlers(), name@) is None ==> {
                &&& r == Ok::<(), RegistrationError>(())
                &&& final(self).spec_handlers() == old(self).spec_handlers().push(
                    (name, handler),
                )
                &&& final(self).spec_types() == old(self).spec_types().insert(type_key, name@)
            },
    {
        let n = self.handlers.len();
        let mut i: usize = 0;
        while i < n
            invariant
                *self == *old(self),
                old(self).wf(),
                n == self.spec_handlers().len(),
                i <= n,
                forall|j: int| 0 <= j < i ==> #[trigger] self.spec_handlers()[j].0@ != name@,
            decreases n - i,
        {
            if self.handlers[i].0 == name {
                proof {
                    lemma_find_first_match(self.spec_handlers(), name@, i as int);
                }
                return Err(RegistrationError::DuplicateName);
            }
            i = i + 1;
        }
        proof {
            lemma_find_none_means_unregistered(self.spec_handlers(), name@);
        }
        let wire_name = name.clone();
        self.handler_types.insert(type_key, wire_name);
        self.handlers.push((name, handler));
        proof {
            assert(self.spec_types() =~= old(self).spec_types().insert(type_key, name@));
            assert forall|i2: int, j2: int|
                0 <= i2 < j2 < self.spec_handlers().len() implies #[trigger] self.spec_handlers()[i2].0@
                != #[trigger] self.spec_handlers()[j2].0@ by {
                if j2 < self.spec_handlers().len() - 1 {
                    assert(old(self).spec_handlers()[i2] == self.spec_handlers()[i2]);
                    assert(old(self).spec_handlers()[j2] == self.spec_handlers()[j2]);
                } else {
                    assert(old(self).spec_handlers()[i2] == self.spec_handlers()[i2]);
                }
            }
        }
        Ok(())
    }

    /// Resolve the wire-level name registered for the pair standing behind
    /// `type_key`: the outbound path, called before serializing so the
    /// outgoing envelope can be tagged.  An unregistered key yields
    /// nothing, not a failure.
    pub fn handler_name(&self, type_key: u64) -> (r: Option<String>)
        ensures
            match r {
                Some(n) => self.spec_types().contains_key(type_key) && n@
                    == self.spec_types()[type_key],
                None => !self.spec_types().contains_key(type_key),
            },
    {
        match self.handler_types.get(&type_key) {
            Some(name) => Some(name.clone()),
            None => None,
        }
    }

    /// Resolve a wire-level name to its registered handler factory: the
    /// inbound path, called after deserializing an envelope's name field.
    /// An unregistered name yields nothing, not a failure.
    pub fn get_handler(&self, message: &GetHandler) -> (r: Option<&H>)
        ensures
            match r {
                Some(h) => spec_find(self.spec_handlers(), message.0@) == Some(*h),
                None => spec_find(self.spec_handlers(), message.0@) is None,
            },
    {
        let n = self.handlers.len();
        let mut i: usize = 0;
        while i < n
            invariant
                n == self.spec_handlers().len(),
                i <= n,
                forall|j: int| 0 <= j < i ==> #[trigger] self.spec_handlers()[j].0@ != message.0@,
            decreases n - i,
        {
            if self.handlers[i].0 == message.0 {
                proof {
                    lemma_find_first_match(self.spec_handlers(), message.0@, i as int);
                }
                return Some(&self.handlers[i].1);
            }
            i = i + 1;
        }
        proof {
            lemma_find_none_means_unregistered(self.spec_handlers(), message.0@);
        }
        None
    }
}

/// Ask the registry for the handler registered under a wire-level name.
pub struct GetHandler(pub String);

/// Marker tying one (actor type, message type) pair together, so transport
/// code can name the pair it is about to serialize for.
pub struct RemoteActorMessageMarker<A: Actor, M: Message> {
    _actor: PhantomData<A>,
    _message: PhantomData<M>,
}

impl<A: Actor, M: Message> RemoteActorMessageMarker<A, M> {
    /// A marker for this (actor type, message type) pair.
    pub fn new() -> (r: RemoteActorMessageMarker<A, M>) {
        RemoteActorMessageMarker { _actor: PhantomData, _message: PhantomData }
    }
}

/// Ask the registry for the wire-level name of one (actor type, message
/// type) pair.
pub struct HandlerName<A: Actor, M: Message> {
    marker: RemoteActorMessageMarker<A, M>,
}

impl<A: Actor, M: Message> HandlerName<A, M> {
    /// A query for this pair's wire-level name.
    pub fn new() -> (r: HandlerName<A, M>) {
        HandlerName { marker: RemoteActorMessageMarker::new() }
    }
}

impl<A: Actor, M: Message> Message for HandlerName<A, M> {
    type Result = Option<String>;
}

} // verus!
