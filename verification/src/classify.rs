//! Call classifier: parses an incoming transaction into a tagged `CallType`,
//! extracting the post-execution state values it claims to establish.
//!
//! Which shape a call classifies to depends only on the call and on the
//! configured parachain and lane; only the captured message-lane nonce is
//! read from chain state. Unrecognized shapes classify to nothing and are
//! never refunded.

use vstd::prelude::*;
use crate::call::{Call, SubCall};
use crate::state::ChainState;
use crate::types::{
    CallType, ExpectedParachainState, ExpectedRelayChainState, LaneId, MessagesState, ParaId,
};

verus! {

/// The relay-chain state a finality submission claims to establish.
pub open spec fn expected_relay_chain_state_of(sub_call: SubCall) -> Option<
    ExpectedRelayChainState,
> {
    match sub_call {
        SubCall::SubmitFinalityProof { finality_target_number } => Some(
            ExpectedRelayChainState { best_block_number: finality_target_number },
        ),
        _ => None,
    }
}

/// The parachain state a head submission for exactly the configured parachain
/// claims to establish.
pub open spec fn expected_parachain_state_of(sub_call: SubCall, parachain_id: ParaId) -> Option<
    ExpectedParachainState,
> {
    match sub_call {
        SubCall::SubmitParachainHeads { at_relay_block_number, parachains } => if parachains@.len()
            == 1 && parachains@[0] == parachain_id {
            Some(ExpectedParachainState { at_relay_block_number })
        } else {
            None
        },
        _ => None,
    }
}

/// The pre-dispatch lane state captured for a delivery submission on exactly
/// the configured lane; the nonce is read live from the chain state.
pub open spec fn captured_messages_state_of(
    sub_call: SubCall,
    lane_id: LaneId,
    state: ChainState,
) -> Option<MessagesState> {
    match sub_call {
        SubCall::ReceiveMessagesProof { lane, nonces_start: _, nonces_end: _ } => if lane
            == lane_id {
            Some(state.messages_state_spec(lane_id))
        } else {
            None
        },
        _ => None,
    }
}

/// Classification of a call: a three-call batch of relay finality, parachain
/// head and delivery; a two-call batch of parachain head and delivery; a
/// standalone delivery; or nothing.
pub open spec fn classify_spec(
    call: Call,
    parachain_id: ParaId,
    lane_id: LaneId,
    state: ChainState,
) -> Option<CallType> {
    match call {
        Call::BatchAll { calls } => if calls@.len() == 3 {
            match (
                expected_relay_chain_state_of(calls@[0]),
                expected_parachain_state_of(calls@[1], parachain_id),
                captured_messages_state_of(calls@[2], lane_id, state),
            ) {
                (Some(relay), Some(para), Some(messages)) => Some(
                    CallType::AllFinalityAndDelivery(relay, para, messages),
                ),
                _ => None,
            }
        } else if calls@.len() == 2 {
            match (
                expected_parachain_state_of(calls@[0], parachain_id),
                captured_messages_state_of(calls@[1], lane_id, state),
            ) {
                (Some(para), Some(messages)) => Some(
                    CallType::ParachainFinalityAndDelivery(para, messages),
                ),
                _ => None,
            }
        } else {
            None
        },
        Call::Single(sub_call) => match captured_messages_state_of(sub_call, lane_id, state) {
            Some(messages) => Some(CallType::Delivery(messages)),
            None => None,
        },
    }
}

/// Classifications agree on shape: both are nothing, or both are the same
/// variant carrying the same expected finality states. The captured lane
/// nonce is left unconstrained.
pub open spec fn same_classification_shape(a: Option<CallType>, b: Option<CallType>) -> bool {
    match (a, b) {
        (None, None) => true,
        (
            Some(CallType::AllFinalityAndDelivery(relay_a, para_a, _)),
            Some(CallType::AllFinalityAndDelivery(relay_b, para_b, _)),
        ) => relay_a == relay_b && para_a == para_b,
        (
            Some(CallType::ParachainFinalityAndDelivery(para_a, _)),
            Some(CallType::ParachainFinalityAndDelivery(para_b, _)),
        ) => para_a == para_b,
        (Some(CallType::Delivery(_)), Some(CallType::Delivery(_))) => true,
        _ => false,
    }
}

/// Classification is referentially transparent in the call: whether a call is
/// recognized, which variant it classifies to, and the expected finality
/// states it carries depend only on the call and the configured parachain and
/// lane. Only the captured pre-dispatch lane nonce is read from chain state.
pub proof fn lemma_classification_reads_only_the_call(
    call: Call,
    parachain_id: ParaId,
    lane_id: LaneId,
    state_a: ChainState,
    state_b: ChainState,
)
    ensures
        same_classification_shape(
            classify_spec(call, parachain_id, lane_id, state_a),
            classify_spec(call, parachain_id, lane_id, state_b),
        ),
{
}

/// A parachain-head submission naming two or more parachains never takes part
/// in a recognized shape: a batch containing one classifies to nothing, even
/// if one of the named parachains is the configured one.
pub proof fn lemma_multi_parachain_submission_never_classifies(
    call: Call,
    parachain_id: ParaId,
    lane_id: LaneId,
    state: ChainState,
    i: int,
)
    requires
        call matches Call::BatchAll { calls } && 0 <= i < calls@.len() && (calls@[i] matches
            SubCall::SubmitParachainHeads { at_relay_block_number: _, parachains }
            && parachains@.len() >= 2),
    ensures
        classify_spec(call, parachain_id, lane_id, state) == None::<CallType>,
{
    match call {
        Call::BatchAll { calls } => {
            if calls@.len() == 3 {
                assert(i == 0 || i == 1 || i == 2);
                assert(expected_relay_chain_state_of(calls@[0]) is Some ==> i != 0);
                assert(expected_parachain_state_of(calls@[1], parachain_id) is Some ==> i != 1);
                assert(captured_messages_state_of(calls@[2], lane_id, state) is Some ==> i != 2);
            } else if calls@.len() == 2 {
                assert(i == 0 || i == 1);
                assert(expected_parachain_state_of(calls@[0], parachain_id) is Some ==> i != 0);
                assert(captured_messages_state_of(calls@[1], lane_id, state) is Some ==> i != 1);
            }
        },
        Call::Single(_) => {},
    }
}

/// Extracts the expected relay chain state from the sub-call.
pub fn extract_expected_relay_chain_state(sub_call: &SubCall) -> (r: Option<
    ExpectedRelayChainState,
>)
    ensures
        r == expected_relay_chain_state_of(*sub_call),
{
    match sub_call {
        SubCall::SubmitFinalityProof { finality_target_number } => Some(
            ExpectedRelayChainState { best_block_number: *finality_target_number },
        ),
        _ => None,
    }
}

/// Extracts the expected parachain state from the sub-call.
pub fn extract_expected_parachain_state(sub_call: &SubCall, parachain_id: ParaId) -> (r: Option<
    ExpectedParachainState,
>)
    ensures
        r == expected_parachain_state_of(*sub_call, parachain_id),
{
    match sub_call {
        SubCall::SubmitParachainHeads { at_relay_block_number, parachains } => {
            if parachains.len() == 1 && parachains[0] == parachain_id {
                Some(ExpectedParachainState { at_relay_block_number: *at_relay_block_number })
            } else {
                None
            }
        },
        _ => None,
    }
}

/// Extracts the pre-dispatch messages state from the sub-call, reading the
/// lane's current nonce from the chain state.
pub fn extract_messages_state(sub_call: &SubCall, lane_id: LaneId, state: &ChainState) -> (r:
    Option<MessagesState>)
    ensures
        r == captured_messages_state_of(*sub_call, lane_id, *state),
{
    match sub_call {
        SubCall::ReceiveMessagesProof { lane, nonces_start: _, nonces_end: _ } => {
            if *lane == lane_id {
                Some(crate::state::messages_state(state, lane_id))
            } else {
                None
            }
        },
        _ => None,
    }
}

/// Classifies the call, capturing the expected post-dispatch state values and
/// the pre-dispatch lane nonce.
pub fn classify(call: &Call, parachain_id: ParaId, lane_id: LaneId, state: &ChainState) -> (r:
    Option<CallType>)
    ensures
        r == classify_spec(*call, parachain_id, lane_id, *state),
{
    match call {
        Call::BatchAll { calls } => {
            if calls.len() == 3 {
                let relay = extract_expected_relay_chain_state(&calls[0]);
                let para = extract_expected_parachain_state(&calls[1], parachain_id);
                let messages = extract_messages_state(&calls[2], lane_id, state);
                match (relay, para, messages) {
                    (Some(relay), Some(para), Some(messages)) => Some(
                        CallType::AllFinalityAndDelivery(relay, para, messages),
                    ),
                    _ => None,
                }
            } else if calls.len() == 2 {
                let para = extract_expected_parachain_state(&calls[0], parachain_id);
                let messages = extract_messages_state(&calls[1], lane_id, state);
                match (para, messages) {
                    (Some(para), Some(messages)) => Some(
                        CallType::ParachainFinalityAndDelivery(para, messages),
                    ),
                    _ => None,
                }
            } else {
                None
            }
        },
        Call::Single(sub_call) => match extract_messages_state(sub_call, lane_id, state) {
            Some(messages) => Some(CallType::Delivery(messages)),
            None => None,
        },
    }
}

} // verus!
