//! Obsolete-transaction guard: rejects sub-calls that submit state the
//! trackers already hold, judged against the current chain state baseline.
//!
//! A batched transaction is checked sub-call by sub-call before the main
//! logic runs, so staleness is judged even for shapes the classifier would
//! not recognize. A parachain-head submission naming more than one parachain
//! is never judged here: it carries no single head to compare.

use vstd::prelude::*;
use crate::call::SubCall;
use crate::state::ChainState;
use crate::types::ValidityError;

verus! {

/// A sub-call is obsolete when the state it submits is not strictly ahead of
/// what the trackers already hold.
pub open spec fn sub_call_is_obsolete(sub_call: SubCall, state: ChainState) -> bool {
    match sub_call {
        SubCall::SubmitFinalityProof { finality_target_number } => match state
            .best_relay_block_number {
            Some(best) => finality_target_number <= best,
            None => false,
        },
        SubCall::SubmitParachainHeads { at_relay_block_number, parachains } => parachains@.len()
            == 1 && match state.parachain_state_spec(parachains@[0]) {
            Some(current) => at_relay_block_number <= current.at_relay_block_number,
            None => false,
        },
        SubCall::ReceiveMessagesProof { lane, nonces_start: _, nonces_end } => nonces_end <= state
            .messages_state_spec(lane).best_nonce,
        SubCall::Other => false,
    }
}

/// Rejects a sub-call whose submission is obsolete relative to the current
/// chain state; accepts every other sub-call.
pub fn pre_check(sub_call: &SubCall, state: &ChainState) -> (r: Result<(), ValidityError>)
    ensures
        r == (if sub_call_is_obsolete(*sub_call, *state) {
            Err::<(), ValidityError>(ValidityError::Stale)
        } else {
            Ok::<(), ValidityError>(())
        }),
{
    let obsolete = match sub_call {
        SubCall::SubmitFinalityProof { finality_target_number } => match state
            .best_relay_block_number {
            Some(best) => *finality_target_number <= best,
            None => false,
        },
        SubCall::SubmitParachainHeads { at_relay_block_number, parachains } => parachains.len()
            == 1 && match crate::state::parachain_state(state, parachains[0]) {
            Some(current) => *at_relay_block_number <= current.at_relay_block_number,
            None => false,
        },
        SubCall::ReceiveMessagesProof { lane, nonces_start: _, nonces_end } => *nonces_end
            <= crate::state::messages_state(state, *lane).best_nonce,
        SubCall::Other => false,
    };
    if obsolete {
        Err(ValidityError::Stale)
    } else {
        Ok(())
    }
}

} // verus!
