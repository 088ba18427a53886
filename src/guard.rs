use vstd::prelude::*;

use crate::error::VeraluxErrorCode;
use crate::state::ContractState;

verus! {

/// Proof that the in-flight flag of the ledger state was taken. Whoever holds it
/// performs the operation and its value transfers, then releases it on every exit
/// path; while it is held, any other mutation of the state is refused.
pub struct ReentrancyGuard {
    held: bool,
}

impl ReentrancyGuard {
    /// Takes the in-flight flag, or fails with no change when it is already taken.
    pub fn new(state: &mut ContractState) -> (r: Result<ReentrancyGuard, VeraluxErrorCode>)
        ensures
            old(state).is_processing ==> r is Err && r->Err_0
                == VeraluxErrorCode::ReentrancyGuardTriggered && *final(state) == *old(state),
            !old(state).is_processing ==> r is Ok && *final(state) == (ContractState {
                is_processing: true,
                ..*old(state)
            }),
    {
        if state.is_processing {
            return Err(VeraluxErrorCode::ReentrancyGuardTriggered);
        }
        state.is_processing = true;
        Ok(ReentrancyGuard { held: true })
    }

    /// Gives the in-flight flag back.
    pub fn release(self, state: &mut ContractState)
        ensures
            *final(state) == (ContractState { is_processing: false, ..*old(state) }),
    {
        state.is_processing = false;
    }
}

} // verus!
