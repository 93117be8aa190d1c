//! The reserved identities and the blank record from which an account
//! actor is auto-created when a message targets an unresolved key-style
//! address.

use vstd::prelude::*;

use crate::state_tree::ActorState;

verus! {

/// The system actor's reserved ID: the privileged sender of internal
/// constructor calls.
pub const SYSTEM_ACTOR_ID: u64 = 0;

/// The method number of every actor's constructor entry point.
pub const METHOD_CONSTRUCTOR: u64 = 1;

/// Code identifier of the account actor's executable code.
pub const ACCOUNT_ACTOR_CODE_ID: u64 = 3;

/// Placeholder state root of a freshly created account actor, filled in
/// by its constructor.
pub const EMPTY_OBJECT_ID: u64 = 0;

/// The record a fresh account actor starts from.
pub open spec fn zero_state_spec() -> ActorState {
    ActorState { code: ACCOUNT_ACTOR_CODE_ID, state: EMPTY_OBJECT_ID, sequence: 0, balance: 0 }
}

/// The record a fresh account actor starts from: account code, empty
/// state, zero sequence and balance.
pub fn zero_state() -> (r: ActorState)
    ensures
        r == zero_state_spec(),
{
    ActorState { code: ACCOUNT_ACTOR_CODE_ID, state: EMPTY_OBJECT_ID, sequence: 0, balance: 0 }
}

} // verus!
