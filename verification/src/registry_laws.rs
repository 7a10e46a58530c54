//! What holds of the registry over a whole run of operations.
//!
//! Tasks that share the registry take turns at it, so whatever they do
//! amounts to some sequence of operations, one after the other. The law
//! here holds of every such sequence.

use vstd::prelude::*;
use crate::registry::{deregistered, registered, ClientSession};

verus! {

/// One operation on the registry.
pub enum RegistryOp {
    Register(u64, ClientSession),
    Deregister(u64),
}

impl RegistryOp {
    /// The identifier that the operation is about.
    pub open spec fn id(self) -> u64 {
        match self {
            RegistryOp::Register(id, _) => id,
            RegistryOp::Deregister(id) => id,
        }
    }
}

/// The sessions after one operation, whether it succeeded or not.
pub open spec fn apply(sessions: Map<u64, ClientSession>, op: RegistryOp) -> Map<
    u64,
    ClientSession,
> {
    match op {
        RegistryOp::Register(id, session) => registered(sessions, id, session),
        RegistryOp::Deregister(id) => deregistered(sessions, id),
    }
}

/// The sessions after a run of operations, first to last.
pub open spec fn apply_all(sessions: Map<u64, ClientSession>, ops: Seq<RegistryOp>) -> Map<
    u64,
    ClientSession,
>
    decreases ops.len(),
{
    if ops.len() == 0 {
        sessions
    } else {
        apply(apply_all(sessions, ops.drop_last()), ops.last())
    }
}

/// The last operation of a run that is about `id`, if there is one.
pub open spec fn last_on(ops: Seq<RegistryOp>, id: u64) -> Option<RegistryOp>
    decreases ops.len(),
{
    if ops.len() == 0 {
        None
    } else if ops.last().id() == id {
        Some(ops.last())
    } else {
        last_on(ops.drop_last(), id)
    }
}

/// After any run of operations an identifier is registered exactly if the
/// last operation about it was a registration, or, where the run holds no
/// operation about it, if it was registered before the run. No update is
/// lost, whatever the order in which the operations of different tasks fell.
pub proof fn lemma_last_operation_decides(
    sessions: Map<u64, ClientSession>,
    ops: Seq<RegistryOp>,
    id: u64,
)
    ensures
        apply_all(sessions, ops).contains_key(id) <==> (match last_on(ops, id) {
            Some(RegistryOp::Register(_, _)) => true,
            Some(RegistryOp::Deregister(_)) => false,
            None => sessions.contains_key(id),
        }),
    decreases ops.len(),
{
    if ops.len() > 0 {
        lemma_last_operation_decides(sessions, ops.drop_last(), id);
    }
}

/// Starting from an empty registry, the registered identifiers are exactly
/// those whose last operation was a registration.
pub proof fn lemma_final_state_from_empty(ops: Seq<RegistryOp>, id: u64)
    ensures
        apply_all(Map::empty(), ops).contains_key(id) <==> (last_on(ops, id) matches Some(
            RegistryOp::Register(_, _),
        )),
{
    lemma_last_operation_decides(Map::empty(), ops, id);
}

/// A registration never replaces a session: registering an identifier a
/// second time changes nothing.
pub proof fn lemma_second_registration_is_refused(
    sessions: Map<u64, ClientSession>,
    id: u64,
    first: ClientSession,
    second: ClientSession,
)
    ensures
        registered(registered(sessions, id, first), id, second) == registered(sessions, id, first),
{
}

} // verus!
