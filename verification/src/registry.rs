//! The client pool registry: the sessions of the clients that are connected,
//! by client identifier.
//!
//! The registry is a plain value. Whoever shares it between tasks puts it
//! behind a lock and holds the lock for one operation at a time; every
//! operation here is then atomic with respect to every other.

use std::collections::HashMap;
use vstd::prelude::*;

verus! {

broadcast use vstd::std_specs::hash::group_hash_axioms;

/// Why an operation on the registry did nothing.
#[derive(Clone, Copy, Debug, PartialEq, Eq, Structural)]
pub enum RegistryError {
    /// The identifier is registered already.
    AlreadyExists,
    /// The identifier is not registered.
    NotFound,
}

/// What the registry keeps for one client: the connection through which the
/// client is written to, and whether the client is present.
#[derive(Clone, Copy, Debug, PartialEq, Eq, Structural)]
pub struct ClientSession {
    pub connection: u64,
    pub online: bool,
}

/// The registry. Its view is the map from identifier to session; `ids` is
/// the identifiers in the order in which they were registered.
pub struct ClientPoolRegistry {
    sessions: HashMap<u64, ClientSession>,
    order: Vec<u64>,
}

/// The sessions after an attempt to register `id`: unchanged where `id` is
/// registered already, else with `session` under `id`.
pub open spec fn registered(
    sessions: Map<u64, ClientSession>,
    id: u64,
    session: ClientSession,
) -> Map<u64, ClientSession> {
    if sessions.contains_key(id) {
        sessions
    } else {
        sessions.insert(id, session)
    }
}

/// The sessions after an attempt to deregister `id`.
pub open spec fn deregistered(sessions: Map<u64, ClientSession>, id: u64) -> Map<
    u64,
    ClientSession,
> {
    sessions.remove(id)
}

impl View for ClientPoolRegistry {
    type V = Map<u64, ClientSession>;

    closed spec fn view(&self) -> Map<u64, ClientSession> {
        self.sessions@
    }
}

impl ClientPoolRegistry {
    /// The registered identifiers, oldest registration first.
    pub closed spec fn ids(&self) -> Seq<u64> {
        self.order@
    }

    /// The registry's invariant: the listed identifiers are the keys of the
    /// map, each listed once.
    pub closed spec fn wf(&self) -> bool {
        &&& self.order@.no_duplicates()
        &&& forall|id: u64| self.order@.contains(id) <==> self.sessions@.contains_key(id)
    }

    /// In a valid registry the listed identifiers are the keys of the map,
    /// each listed once.
    pub proof fn lemma_ids_are_keys(&self)
        requires
            self.wf(),
        ensures
            self.ids().no_duplicates(),
            self.ids().to_set() == self@.dom(),
            self.ids().len() == self@.dom().len(),
            self@.dom().finite(),
    {
        assert(self.ids().to_set() =~= self@.dom());
        self.ids().unique_seq_to_set();
    }

    /// An empty registry.
    pub fn new() -> (registry: ClientPoolRegistry)
        ensures
            registry.wf(),
            registry@ == Map::<u64, ClientSession>::empty(),
            registry.ids() == Seq::<u64>::empty(),
    {
        ClientPoolRegistry { sessions: HashMap::new(), order: Vec::new() }
    }

    /// Where `id` stands in the order of registration.
    fn position(&self, id: u64) -> (at: usize)
        requires
            self.order@.contains(id),
        ensures
            at < self.order@.len(),
            self.order@[at as int] == id,
    {
        let mut i: usize = 0;
        while i < self.order.len()
            invariant
                i <= self.order@.len(),
                self.order@.contains(id),
                forall|k: int| 0 <= k < i ==> self.order@[k] != id,
            decreases self.order@.len() - i,
        {
            if self.order[i] == id {
                return i;
            }
            i += 1;
        }
        proof {
            let k = choose|k: int| 0 <= k < self.order@.len() && self.order@[k] == id;
            assert(self.order@[k] == id);
        }
        0
    }

    /// Registers `session` under `id`, unless `id` is registered already.
    pub fn register(&mut self, id: u64, session: ClientSession) -> (r: Result<(), RegistryError>)
        requires
            old(self).wf(),
        ensures
            final(self).wf(),
            final(self)@ == registered(old(self)@, id, session),
            old(self)@.contains_key(id) ==> r == Err::<(), RegistryError>(
                RegistryError::AlreadyExists,
            ) && final(self).ids() == old(self).ids(),
            !old(self)@.contains_key(id) ==> r == Ok::<(), RegistryError>(()) && final(self).ids()
                == old(self).ids().push(id),
    {
        if self.sessions.contains_key(&id) {
            return Err(RegistryError::AlreadyExists);
        }
        let ghost before = self.order@;
        self.sessions.insert(id, session);
        self.order.push(id);
        proof {
            assert(!before.contains(id));
            assert forall|k: u64| self.order@.contains(k) <==> self.sessions@.contains_key(k) by {
                if self.order@.contains(k) {
                    let i = choose|i: int| 0 <= i < self.order@.len() && self.order@[i] == k;
                    if i < before.len() {
                        assert(before[i] == k);
                        assert(before.contains(k));
                    }
                }
                if self.sessions@.contains_key(k) {
                    if k == id {
                        assert(self.order@[before.len() as int] == k);
                    } else {
                        assert(before.contains(k));
                        let i = choose|i: int| 0 <= i < before.len() && before[i] == k;
                        assert(self.order@[i] == k);
                    }
                }
            }
            assert forall|i: int, j: int|
                0 <= i < self.order@.len() && 0 <= j < self.order@.len() && i != j implies self.order@[i]
                != self.order@[j] by {
                if i < before.len() && j < before.len() {
                    assert(before[i] != before[j]);
                } else if i < before.len() {
                    assert(before[i] == self.order@[i]);
                    assert(before.contains(self.order@[i]));
                } else if j < before.len() {
                    assert(before[j] == self.order@[j]);
                    assert(before.contains(self.order@[j]));
                }
            }
        }
        Ok(())
    }

    /// Removes `id` and hands its session back, if `id` is registered.
    pub fn deregister(&mut self, id: u64) -> (r: Result<ClientSession, RegistryError>)
        requires
            old(self).wf(),
        ensures
            final(self).wf(),
            final(self)@ == deregistered(old(self)@, id),
            old(self)@.contains_key(id) ==> r == Ok::<ClientSession, RegistryError>(old(self)@[id])
                && final(self).ids() == old(self).ids().remove(old(self).ids().index_of(id)),
            !old(self)@.contains_key(id) ==> r == Err::<ClientSession, RegistryError>(
                RegistryError::NotFound,
            ) && final(self).ids() == old(self).ids(),
    {
        if !self.sessions.contains_key(&id) {
            assert(self.sessions@ =~= self.sessions@.remove(id));
            return Err(RegistryError::NotFound);
        }
        let at = self.position(id);
        let ghost before = self.order@;
        let removed = self.sessions.remove(&id);
        self.order.remove(at);
        proof {
            let p = at as int;
            let q = before.index_of(id);
            assert(before.contains(id));
            assert(0 <= q < before.len() && before[q] == id);
            assert(q == p);
            assert forall|i: int| 0 <= i < self.order@.len() implies #[trigger] self.order@[i]
                == before[if i < p {
                i
            } else {
                i + 1
            }] by {}
            assert forall|i: int, j: int|
                0 <= i < self.order@.len() && 0 <= j < self.order@.len() && i != j implies self.order@[i]
                != self.order@[j] by {
                let a = if i < p {
                    i
                } else {
                    i + 1
                };
                let b = if j < p {
                    j
                } else {
                    j + 1
                };
                assert(before[a] != before[b]);
            }
            assert forall|k: u64| self.order@.contains(k) <==> self.sessions@.contains_key(k) by {
                if self.order@.contains(k) {
                    let i = choose|i: int| 0 <= i < self.order@.len() && self.order@[i] == k;
                    let a = if i < p {
                        i
                    } else {
                        i + 1
                    };
                    assert(before[a] == k);
                    assert(before.contains(k));
                    assert(before[a] != before[p]);
                }
                if self.sessions@.contains_key(k) {
                    assert(before.contains(k));
                    let a = choose|a: int| 0 <= a < before.len() && before[a] == k;
                    let i = if a < p {
                        a
                    } else {
                        a - 1
                    };
                    assert(self.order@[i] == k);
                }
            }
        }
        match removed {
            Some(session) => Ok(session),
            None => Err(RegistryError::NotFound),
        }
    }

    /// The session registered under `id`, if there is one.
    pub fn lookup(&self, id: u64) -> (r: Option<ClientSession>)
        ensures
            r == (if self@.contains_key(id) {
                Some(self@[id])
            } else {
                None::<ClientSession>
            }),
    {
        match self.sessions.get(&id) {
            Some(session) => Some(*session),
            None => None,
        }
    }

    /// A snapshot of the registered identifiers, oldest registration first.
    pub fn list(&self) -> (ids: Vec<u64>)
        ensures
            ids@ == self.ids(),
    {
        let mut ids: Vec<u64> = Vec::with_capacity(self.order.len());
        let mut i: usize = 0;
        while i < self.order.len()
            invariant
                i <= self.order@.len(),
                ids@ =~= self.order@.subrange(0, i as int),
            decreases self.order@.len() - i,
        {
            ids.push(self.order[i]);
            i += 1;
        }
        assert(ids@ =~= self.order@);
        ids
    }

    /// The number of registered clients.
    pub fn len(&self) -> (n: usize)
        ensures
            n == self.ids().len(),
    {
        self.order.len()
    }
}

} // verus!
