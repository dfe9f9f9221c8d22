//! Reward engine: the pluggable fee-calculation strategy and the lane-keyed
//! reward ledger that refunds accumulate into.

use vstd::prelude::*;
use crate::lookup::{
    assoc_lookup, lemma_assoc_lookup_at, lemma_assoc_lookup_none, lemma_assoc_lookup_push,
    lemma_assoc_lookup_update,
};
use crate::types::{AccountId, DispatchInfo, LaneId, PostDispatchInfo, RewardAmount};

verus! {

/// Transaction fee calculation.
///
/// Computes the fee paid for a dispatched call from its declared and actual
/// dispatch information, its encoded length and a tip; the extension later
/// refunds that fee to the relayer, always evaluating it with a tip of zero.
pub trait TransactionFeeCalculation {
    /// The fee this strategy charges, as a mathematical function.
    spec fn compute_fee_spec(
        info: DispatchInfo,
        post_info: PostDispatchInfo,
        len: usize,
        tip: RewardAmount,
    ) -> RewardAmount;

    /// Computes the fee paid for a transaction with the given dispatch
    /// information, encoded length and tip.
    fn compute_fee(
        info: &DispatchInfo,
        post_info: &PostDispatchInfo,
        len: usize,
        tip: RewardAmount,
    ) -> (r: RewardAmount)
        ensures
            r == Self::compute_fee_spec(*info, *post_info, len, tip),
    ;
}

/// Fee strategy charging one balance unit per weight unit actually spent and
/// per encoded byte, plus the tip, saturating at the balance maximum.
pub struct WeightAndLengthFee;

impl WeightAndLengthFee {
    /// Weight the fee is charged for: the spent weight when execution
    /// reported one, capped at the declared weight, else the declared weight.
    pub open spec fn charged_weight_spec(info: DispatchInfo, post_info: PostDispatchInfo) -> u64 {
        match post_info.actual_weight {
            Some(actual) => if actual < info.weight {
                actual
            } else {
                info.weight
            },
            None => info.weight,
        }
    }
}

impl TransactionFeeCalculation for WeightAndLengthFee {
    open spec fn compute_fee_spec(
        info: DispatchInfo,
        post_info: PostDispatchInfo,
        len: usize,
        tip: RewardAmount,
    ) -> RewardAmount {
        Self::charged_weight_spec(info, post_info).saturating_add(len as u64).saturating_add(tip)
    }

    fn compute_fee(
        info: &DispatchInfo,
        post_info: &PostDispatchInfo,
        len: usize,
        tip: RewardAmount,
    ) -> (r: RewardAmount) {
        let charged_weight = match post_info.actual_weight {
            Some(actual) => if actual < info.weight {
                actual
            } else {
                info.weight
            },
            None => info.weight,
        };
        charged_weight.saturating_add(len as u64).saturating_add(tip)
    }
}

/// Ledger of relayer rewards, keyed by relayer account and lane.
///
/// Externally owned state in the deployed system; the extension writes it
/// only through `register_relayer_reward`, at most once per transaction.
#[derive(Debug, PartialEq, Eq)]
pub struct RewardLedger {
    entries: Vec<((AccountId, LaneId), RewardAmount)>,
}

impl RewardLedger {
    /// Accumulated reward of the relayer on the lane, if any was registered.
    pub closed spec fn reward_of(self, relayer: AccountId, lane_id: LaneId) -> Option<
        RewardAmount,
    > {
        assoc_lookup(self.entries@, (relayer, lane_id))
    }

    /// Accumulated reward of the relayer on the lane, or zero.
    pub open spec fn reward_or_zero(self, relayer: AccountId, lane_id: LaneId) -> RewardAmount {
        match self.reward_of(relayer, lane_id) {
            Some(amount) => amount,
            None => 0,
        }
    }

    /// Creates an empty ledger.
    pub fn new() -> (r: RewardLedger)
        ensures
            forall|relayer: AccountId, lane_id: LaneId|
                r.reward_of(relayer, lane_id) == None::<RewardAmount>,
    {
        let ledger = RewardLedger { entries: Vec::new() };
        proof {
            assert forall|relayer: AccountId, lane_id: LaneId|
                ledger.reward_of(relayer, lane_id) == None::<RewardAmount> by {
                lemma_assoc_lookup_none(ledger.entries@, (relayer, lane_id));
            }
        }
        ledger
    }

    /// Adds the reward to the relayer's balance on the lane, saturating at
    /// the balance maximum; every other balance is untouched. Registering
    /// twice accumulates twice: the dispatch pipeline guarantees at most one
    /// registration per transaction, and the ledger adds no deduplication.
    #[verifier::loop_isolation(false)]
    pub fn register_relayer_reward(
        &mut self,
        lane_id: LaneId,
        relayer: AccountId,
        reward: RewardAmount,
    )
        ensures
            final(self).reward_of(relayer, lane_id) == Some(
                old(self).reward_or_zero(relayer, lane_id).saturating_add(reward),
            ),
            forall|other_relayer: AccountId, other_lane: LaneId|
                !(other_relayer == relayer && other_lane == lane_id)
                    ==> final(self).reward_of(other_relayer, other_lane) == old(self).reward_of(
                    other_relayer,
                    other_lane,
                ),
    {
        let key = (relayer, lane_id);
        let mut i: usize = 0;
        while i < self.entries.len()
            invariant
                i <= self.entries@.len(),
                *self == *old(self),
                forall|k: int| 0 <= k < i ==> (#[trigger] self.entries@[k]).0 != key,
            decreases self.entries@.len() - i,
        {
            if self.entries[i].0.0 == relayer && self.entries[i].0.1 == lane_id {
                let accumulated = self.entries[i].1.saturating_add(reward);
                proof {
                    lemma_assoc_lookup_at(self.entries@, key, i as int);
                    lemma_assoc_lookup_update(self.entries@, i as int, key, accumulated);
                }
                let ghost scanned = self.entries@;
                self.entries[i] = (key, accumulated);
                proof {
                    assert forall|k: int| 0 <= k < i implies (#[trigger] self.entries@[k]).0
                        != key by {
                        assert(self.entries@[k] == scanned[k]);
                    }
                    lemma_assoc_lookup_at(self.entries@, key, i as int);
                }
                return ;
            }
            i += 1;
        }
        proof {
            lemma_assoc_lookup_none(self.entries@, key);
            lemma_assoc_lookup_push(self.entries@, key, reward);
        }
        self.entries.push((key, reward));
    }

    /// Returns the accumulated reward of the relayer on the lane, if any.
    #[verifier::loop_isolation(false)]
    pub fn relayer_reward(&self, relayer: AccountId, lane_id: LaneId) -> (r: Option<RewardAmount>)
        ensures
            r == self.reward_of(relayer, lane_id),
    {
        let mut i: usize = 0;
        while i < self.entries.len()
            invariant
                i <= self.entries@.len(),
                forall|k: int|
                    0 <= k < i ==> (#[trigger] self.entries@[k]).0 != (relayer, lane_id),
            decreases self.entries@.len() - i,
        {
            if self.entries[i].0.0 == relayer && self.entries[i].0.1 == lane_id {
                proof {
                    lemma_assoc_lookup_at(self.entries@, (relayer, lane_id), i as int);
                }
                return Some(self.entries[i].1);
            }
            i += 1;
        }
        proof {
            lemma_assoc_lookup_none(self.entries@, (relayer, lane_id));
        }
        None
    }
}

} // verus!
