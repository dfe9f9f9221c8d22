//! Snapshot of the externally owned chain state, and the three read-only
//! accessors the extension runs against it.
//!
//! The trackers and the lane ledger live outside this library; the pipeline
//! hands each hook the state committed at call time, so the hooks can observe
//! the before/after delta of one transaction.

use vstd::prelude::*;
use crate::lookup::{assoc_lookup, lemma_assoc_lookup_at, lemma_assoc_lookup_none};
use crate::types::{
    ExpectedParachainState, ExpectedRelayChainState, LaneId, MessageNonce, MessagesState, ParaId,
    RelayBlockNumber,
};

verus! {

/// Committed chain state observed at one instant.
#[derive(Debug)]
pub struct ChainState {
    /// Best finalized relay-chain block known to the relay-chain finality
    /// tracker, or none if the tracker has never been initialized.
    pub best_relay_block_number: Option<RelayBlockNumber>,
    /// For each tracked parachain, the relay-chain block at which its head
    /// was last updated.
    pub parachain_heads: Vec<(ParaId, RelayBlockNumber)>,
    /// For each message lane, the last delivered nonce. A lane without an
    /// entry has delivered nothing and reports nonce zero.
    pub lanes: Vec<(LaneId, MessageNonce)>,
}

impl ChainState {
    /// State of the relay-chain finality tracker.
    pub open spec fn relay_chain_state_spec(self) -> Option<ExpectedRelayChainState> {
        match self.best_relay_block_number {
            Some(best_block_number) => Some(ExpectedRelayChainState { best_block_number }),
            None => None,
        }
    }

    /// State of the parachain finality tracker for the given parachain.
    pub open spec fn parachain_state_spec(self, parachain_id: ParaId) -> Option<
        ExpectedParachainState,
    > {
        match assoc_lookup(self.parachain_heads@, parachain_id) {
            Some(at_relay_block_number) => Some(ExpectedParachainState { at_relay_block_number }),
            None => None,
        }
    }

    /// Last delivered nonce of the given lane; zero for an unknown lane.
    pub open spec fn messages_state_spec(self, lane_id: LaneId) -> MessagesState {
        match assoc_lookup(self.lanes@, lane_id) {
            Some(best_nonce) => MessagesState { best_nonce },
            None => MessagesState { best_nonce: 0 },
        }
    }
}

/// Returns the best known finalized relay-chain block, or none if the
/// relay-chain tracker has never been initialized.
pub fn relay_chain_state(state: &ChainState) -> (r: Option<ExpectedRelayChainState>)
    ensures
        r == state.relay_chain_state_spec(),
{
    match state.best_relay_block_number {
        Some(best_block_number) => Some(ExpectedRelayChainState { best_block_number }),
        None => None,
    }
}

/// Returns the relay-chain block at which the given parachain's head was last
/// updated, or none if the parachain is unknown to the tracker.
#[verifier::loop_isolation(false)]
pub fn parachain_state(state: &ChainState, parachain_id: ParaId) -> (r: Option<
    ExpectedParachainState,
>)
    ensures
        r == state.parachain_state_spec(parachain_id),
{
    let entries = &state.parachain_heads;
    let mut i: usize = 0;
    while i < entries.len()
        invariant
            i <= entries@.len(),
            forall|k: int| 0 <= k < i ==> (#[trigger] entries@[k]).0 != parachain_id,
        decreases entries@.len() - i,
    {
        if entries[i].0 == parachain_id {
            proof {
                lemma_assoc_lookup_at(entries@, parachain_id, i as int);
            }
            return Some(ExpectedParachainState { at_relay_block_number: entries[i].1 });
        }
        i += 1;
    }
    proof {
        lemma_assoc_lookup_none(entries@, parachain_id);
    }
    None
}

/// Returns the last delivered nonce of the given lane. Always defined: an
/// empty or unknown lane reports nonce zero.
#[verifier::loop_isolation(false)]
pub fn messages_state(state: &ChainState, lane_id: LaneId) -> (r: MessagesState)
    ensures
        r == state.messages_state_spec(lane_id),
{
    let entries = &state.lanes;
    let mut i: usize = 0;
    while i < entries.len()
        invariant
            i <= entries@.len(),
            forall|k: int| 0 <= k < i ==> (#[trigger] entries@[k]).0 != lane_id,
        decreases entries@.len() - i,
    {
        if entries[i].0 == lane_id {
            proof {
                lemma_assoc_lookup_at(entries@, lane_id, i as int);
            }
            return MessagesState { best_nonce: entries[i].1 };
        }
        i += 1;
    }
    proof {
        lemma_assoc_lookup_none(entries@, lane_id);
    }
    MessagesState { best_nonce: 0 }
}

} // verus!
