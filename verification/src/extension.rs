//! The three-hook lifecycle that refunds a relayer whose transaction
//! advanced the bridge state: `validate` rejects batches carrying obsolete
//! submissions, `pre_dispatch` classifies the call and captures the
//! pre-execution state, and `post_dispatch` compares the post-execution
//! state against what the transaction claimed and registers the reward.
//!
//! The pipeline invokes the hooks in strict order, once per transaction,
//! skipping `post_dispatch` when `pre_dispatch` was skipped or rejected the
//! transaction.

use vstd::prelude::*;
use crate::call::{Call, SubCall};
use crate::classify::{classify, classify_spec};
use crate::guard::{pre_check, sub_call_is_obsolete};
use crate::reward::{RewardLedger, TransactionFeeCalculation};
use crate::state::{messages_state, parachain_state, relay_chain_state, ChainState};
use crate::types::{
    AccountId, CallType, DispatchError, DispatchInfo, LaneId, ParaId, PostDispatchInfo,
    PreDispatchData, ValidityError,
};

verus! {

/// A batch-all call holds a sub-call whose submission is obsolete relative to
/// the current chain state. Unbatched calls are not judged here.
pub open spec fn call_has_obsolete_sub_call(call: Call, state: ChainState) -> bool {
    match call {
        Call::BatchAll { calls } => exists|i: int|
            0 <= i < calls@.len() && sub_call_is_obsolete(#[trigger] calls@[i], state),
        Call::Single(_) => false,
    }
}

/// The pre-dispatch data `pre_dispatch` captures for a recognized call.
pub open spec fn pre_dispatch_data_spec(
    relayer: AccountId,
    call: Call,
    parachain_id: ParaId,
    lane_id: LaneId,
    state: ChainState,
) -> Option<PreDispatchData> {
    match classify_spec(call, parachain_id, lane_id, state) {
        Some(call_type) => Some(PreDispatchData { relayer, call_type }),
        None => None,
    }
}

/// The relay-chain tracker reached exactly the state an all-finality
/// transaction claimed; transactions of the other types make no such claim.
pub open spec fn relay_chain_state_matches(call_type: CallType, state: ChainState) -> bool {
    match call_type {
        CallType::AllFinalityAndDelivery(expected, _, _) => state.relay_chain_state_spec()
            == Some(expected),
        _ => true,
    }
}

/// The parachain tracker reached exactly the state the transaction claimed;
/// standalone deliveries make no such claim.
pub open spec fn parachain_state_matches(
    call_type: CallType,
    state: ChainState,
    parachain_id: ParaId,
) -> bool {
    match call_type {
        CallType::AllFinalityAndDelivery(_, expected, _) => state.parachain_state_spec(
            parachain_id,
        ) == Some(expected),
        CallType::ParachainFinalityAndDelivery(expected, _) => state.parachain_state_spec(
            parachain_id,
        ) == Some(expected),
        CallType::Delivery(_) => true,
    }
}

/// The lane's nonce moved past the value captured before dispatch: at least
/// one new message was delivered. Partial delivery counts; zero progress does
/// not.
pub open spec fn messages_delivered(call_type: CallType, state: ChainState, lane_id: LaneId) -> bool {
    state.messages_state_spec(lane_id) != call_type.pre_dispatch_messages_state_spec()
}

/// A classified transaction earns its refund only when every tracker reached
/// the state it claimed and the lane saw new deliveries.
pub open spec fn refund_eligible(
    call_type: CallType,
    state: ChainState,
    parachain_id: ParaId,
    lane_id: LaneId,
) -> bool {
    &&& relay_chain_state_matches(call_type, state)
    &&& parachain_state_matches(call_type, state, parachain_id)
    &&& messages_delivered(call_type, state, lane_id)
}

/// The relayer owed a reward after execution, if any: the transaction must
/// have been classified, must have executed successfully, and must be
/// refund-eligible against the post-execution chain state.
pub open spec fn reward_beneficiary(
    pre: Option<Option<PreDispatchData>>,
    execution_result: Result<(), DispatchError>,
    state: ChainState,
    parachain_id: ParaId,
    lane_id: LaneId,
) -> Option<PreDispatchData> {
    match pre {
        Some(Some(data)) => if execution_result is Ok && refund_eligible(
            data.call_type,
            state,
            parachain_id,
            lane_id,
        ) {
            Some(data)
        } else {
            None
        },
        _ => None,
    }
}

/// A batch-all transaction one of whose nested sub-calls submits obsolete
/// state is judged obsolete as a whole: by the contracts of `validate` and
/// `pre_dispatch`, both hooks reject it as stale, so it never executes and no
/// reward can ever be registered for it.
pub proof fn lemma_batch_with_obsolete_sub_call_is_rejected(call: Call, state: ChainState, i: int)
    requires
        call matches Call::BatchAll { calls } && 0 <= i < calls@.len() && sub_call_is_obsolete(
            calls@[i],
            state,
        ),
    ensures
        call_has_obsolete_sub_call(call, state),
{
}

/// If execution reported failure, no relayer is owed a reward, whatever the
/// classification: by the contract of `post_dispatch`, the reward ledger is
/// left unchanged.
pub proof fn lemma_failed_execution_forfeits_reward(
    pre: Option<Option<PreDispatchData>>,
    execution_result: Result<(), DispatchError>,
    state: ChainState,
    parachain_id: ParaId,
    lane_id: LaneId,
)
    requires
        execution_result is Err,
    ensures
        reward_beneficiary(pre, execution_result, state, parachain_id, lane_id) is None,
{
}

/// An all-finality transaction whose claimed relay-chain state differs from
/// the tracker's post-execution state is not refund-eligible: by the contract
/// of `post_dispatch`, the reward ledger is left unchanged.
pub proof fn lemma_relay_chain_mismatch_forfeits_reward(
    call_type: CallType,
    state: ChainState,
    parachain_id: ParaId,
    lane_id: LaneId,
)
    requires
        call_type matches CallType::AllFinalityAndDelivery(expected, _, _) && state
            .relay_chain_state_spec() != Some(expected),
    ensures
        !refund_eligible(call_type, state, parachain_id, lane_id),
{
}

/// A transaction that claimed a parachain state the tracker did not reach is
/// not refund-eligible, whether the claim came batched with relay finality or
/// alone: by the contract of `post_dispatch`, the reward ledger is left
/// unchanged.
pub proof fn lemma_parachain_mismatch_forfeits_reward(
    call_type: CallType,
    state: ChainState,
    parachain_id: ParaId,
    lane_id: LaneId,
)
    requires
        match call_type {
            CallType::AllFinalityAndDelivery(_, expected, _) => state.parachain_state_spec(
                parachain_id,
            ) != Some(expected),
            CallType::ParachainFinalityAndDelivery(expected, _) => state.parachain_state_spec(
                parachain_id,
            ) != Some(expected),
            CallType::Delivery(_) => false,
        },
    ensures
        !refund_eligible(call_type, state, parachain_id, lane_id),
{
}

/// A classified transaction after which the lane's live nonce still equals
/// the nonce captured before dispatch delivered nothing new and is not
/// refund-eligible: by the contract of `post_dispatch`, the reward ledger is
/// left unchanged.
pub proof fn lemma_no_new_delivery_forfeits_reward(
    call_type: CallType,
    state: ChainState,
    parachain_id: ParaId,
    lane_id: LaneId,
)
    requires
        state.messages_state_spec(lane_id) == call_type.pre_dispatch_messages_state_spec(),
    ensures
        !refund_eligible(call_type, state, parachain_id, lane_id),
{
}

/// Signed extension that refunds a relayer for delivering new messages from
/// the configured parachain over the configured lane, together with the
/// finality submissions batched with the delivery.
///
/// The refund never covers the transaction tip: a tip is attributable to the
/// signer alone, and refunding it would let a malicious relayer drain the
/// shared rewards pool by padding arbitrary tips at no cost to itself.
pub struct RefundRelayerForMessagesFromParachain {
    /// The parachain whose head submissions this extension tracks.
    pub parachain_id: ParaId,
    /// The message lane whose deliveries this extension rewards.
    pub lane_id: LaneId,
}

impl RefundRelayerForMessagesFromParachain {
    /// Rejects a batch-all transaction any of whose nested sub-calls submits
    /// obsolete state, judged against the current chain state — before and
    /// independently of classification. Every other transaction is valid.
    #[verifier::loop_isolation(false)]
    pub fn validate(&self, call: &Call, state: &ChainState) -> (r: Result<(), ValidityError>)
        ensures
            r == (if call_has_obsolete_sub_call(*call, *state) {
                Err::<(), ValidityError>(ValidityError::Stale)
            } else {
                Ok::<(), ValidityError>(())
            }),
    {
        match call {
            Call::BatchAll { calls } => {
                let mut i: usize = 0;
                while i < calls.len()
                    invariant
                        i <= calls@.len(),
                        forall|k: int|
                            0 <= k < i ==> !sub_call_is_obsolete(#[trigger] calls@[k], *state),
                    decreases calls@.len() - i,
                {
                    if let Err(error) = pre_check(&calls[i], state) {
                        return Err(error);
                    }
                    i += 1;
                }
                Ok(())
            },
            Call::Single(_) => Ok(()),
        }
    }

    /// Re-runs the staleness check of `validate`, then classifies the call.
    /// A recognized call yields captured pre-dispatch data; an unrecognized
    /// one yields nothing — not an error, the transaction merely executes
    /// without refund eligibility.
    pub fn pre_dispatch(&self, relayer: AccountId, call: &Call, state: &ChainState) -> (r: Result<
        Option<PreDispatchData>,
        ValidityError,
    >)
        ensures
            r == (if call_has_obsolete_sub_call(*call, *state) {
                Err::<Option<PreDispatchData>, ValidityError>(ValidityError::Stale)
            } else {
                Ok::<Option<PreDispatchData>, ValidityError>(
                    pre_dispatch_data_spec(relayer, *call, self.parachain_id, self.lane_id, *state),
                )
            }),
    {
        if let Err(error) = self.validate(call, state) {
            return Err(error);
        }
        match classify(call, self.parachain_id, self.lane_id, state) {
            Some(call_type) => Ok(Some(PreDispatchData { relayer, call_type })),
            None => Ok(None),
        }
    }

    /// Re-reads the chain state after execution and registers the relayer's
    /// reward when the transaction was classified, executed successfully, and
    /// every tracker reached the state it claimed while the lane progressed.
    /// Every other outcome leaves the ledger untouched — ineligibility is
    /// silent, never an error. The fee is computed with a tip of zero
    /// whatever tip the transaction declared.
    ///
    /// The pipeline invokes this hook at most once per transaction; a repeat
    /// invocation would accumulate a second reward, as the ledger's contract
    /// makes explicit.
    pub fn post_dispatch<Fee: TransactionFeeCalculation>(
        &self,
        pre: Option<Option<PreDispatchData>>,
        info: &DispatchInfo,
        post_info: &PostDispatchInfo,
        len: usize,
        execution_result: &Result<(), DispatchError>,
        state: &ChainState,
        ledger: &mut RewardLedger,
    ) -> (r: Result<(), ValidityError>)
        ensures
            r == Ok::<(), ValidityError>(()),
            match reward_beneficiary(pre, *execution_result, *state, self.parachain_id, self.lane_id) {
                Some(data) => {
                    &&& final(ledger).reward_of(data.relayer, self.lane_id) == Some(
                        old(ledger).reward_or_zero(data.relayer, self.lane_id).saturating_add(
                            Fee::compute_fee_spec(*info, *post_info, len, 0),
                        ),
                    )
                    &&& forall|other_relayer: AccountId, other_lane: LaneId|
                        !(other_relayer == data.relayer && other_lane == self.lane_id)
                            ==> final(ledger).reward_of(other_relayer, other_lane) == old(
                            ledger,
                        ).reward_of(other_relayer, other_lane)
                },
                None => *final(ledger) == *old(ledger),
            },
    {
        // a transaction that was not recognized is never refunded
        let data = match pre {
            Some(Some(data)) => data,
            _ => { return Ok(()) },
        };

        // a transaction that failed is never refunded
        if execution_result.is_err() {
            return Ok(());
        }

        // check if the relay chain tracker reached the claimed state
        if let CallType::AllFinalityAndDelivery(expected_relay_chain_state, _, _) =
            data.call_type {
            let relay_updated = match relay_chain_state(state) {
                Some(actual) => actual.best_block_number
                    == expected_relay_chain_state.best_block_number,
                None => false,
            };
            if !relay_updated {
                return Ok(());
            }
        }

        // check if the parachain tracker reached the claimed state
        let expected_parachain = match data.call_type {
            CallType::AllFinalityAndDelivery(_, expected, _) => Some(expected),
            CallType::ParachainFinalityAndDelivery(expected, _) => Some(expected),
            CallType::Delivery(_) => None,
        };
        if let Some(expected_parachain_state) = expected_parachain {
            let parachain_updated = match parachain_state(state, self.parachain_id) {
                Some(actual) => actual.at_relay_block_number
                    == expected_parachain_state.at_relay_block_number,
                None => false,
            };
            if !parachain_updated {
                return Ok(());
            }
        }

        // check if new messages were delivered on the lane
        let actual_messages_state = messages_state(state, self.lane_id);
        let pre_dispatch_messages_state = data.call_type.pre_dispatch_messages_state();
        if actual_messages_state.best_nonce == pre_dispatch_messages_state.best_nonce {
            return Ok(());
        }

        // the tip is deliberately never refunded: compute the fee as if none
        // was declared, and register it for the relayer on the lane
        let reward = Fee::compute_fee(info, post_info, len, 0);
        ledger.register_relayer_reward(self.lane_id, data.relayer, reward);
        Ok(())
    }
}

} // verus!
