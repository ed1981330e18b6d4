//! The engine step: move the machine, commit, only then act.
//!
//! A broadcast that changes balances cannot be re-observed if the process
//! dies right after it, so the new state must be durable before any effect
//! is handed to the wallet or the network. These wrappers couple one
//! machine step to one store write: when the caller receives the effects,
//! the state they arose from is already committed under the swap's id.

use vstd::prelude::*;

use crate::alice::{alice_step, alice_step_spec, AliceEffect, AliceEvent, AliceState};
use crate::bob::{bob_step, bob_step_spec, BobEffect, BobEvent, BobState};
use crate::protocol::{ProtocolError, SwapParams};
use crate::store::{Database, StoredState};

verus! {

/// One engine step for an Alice-side swap.
pub fn alice_step_and_persist(
    db: &mut Database,
    id: u128,
    p: &SwapParams,
    s: AliceState,
    e: AliceEvent,
) -> (r: (Vec<AliceEffect>, Option<ProtocolError>))
    requires
        old(db).wf(),
    ensures
        final(db).wf(),
        final(db).contains_pair(id, StoredState::Alice(alice_step_spec(*p, s, e).0)),
        forall|k: u128, v: StoredState|
            k != id ==> (#[trigger] final(db).contains_pair(k, v) == old(db).contains_pair(k, v)),
        r.0@ == alice_step_spec(*p, s, e).1,
        r.1 == alice_step_spec(*p, s, e).2,
{
    let (next, effects, error) = alice_step(p, s, e);
    db.put(id, StoredState::Alice(next));
    (effects, error)
}

/// One engine step for a Bob-side swap.
pub fn bob_step_and_persist(
    db: &mut Database,
    id: u128,
    p: &SwapParams,
    s: BobState,
    e: BobEvent,
) -> (r: (Vec<BobEffect>, Option<ProtocolError>))
    requires
        old(db).wf(),
    ensures
        final(db).wf(),
        final(db).contains_pair(id, StoredState::Bob(bob_step_spec(*p, s, e).0)),
        forall|k: u128, v: StoredState|
            k != id ==> (#[trigger] final(db).contains_pair(k, v) == old(db).contains_pair(k, v)),
        r.0@ == bob_step_spec(*p, s, e).1,
        r.1 == bob_step_spec(*p, s, e).2,
{
    let (next, effects, error) = bob_step(p, s, e);
    db.put(id, StoredState::Bob(next));
    (effects, error)
}

} // verus!
