//! Core data model: the state values a transaction claims to establish, the
//! classified call types, and the plain values exchanged with the dispatch
//! pipeline.

use vstd::prelude::*;

verus! {

/// Account identifier of a relayer on this chain.
pub type AccountId = u64;

/// Relay-chain block number.
pub type RelayBlockNumber = u32;

/// Identifier of a parachain.
pub type ParaId = u32;

/// Identifier of a message lane.
pub type LaneId = u32;

/// Message nonce on a lane: a strictly increasing delivery sequence number.
pub type MessageNonce = u64;

/// Amount of a relayer reward, in the chain's balance unit.
pub type RewardAmount = u64;

/// Expected post-dispatch state of the relay-chain finality tracker.
#[derive(Clone, Copy, Debug, PartialEq, Eq, Structural)]
pub struct ExpectedRelayChainState {
    /// Best known relay chain block number.
    pub best_block_number: RelayBlockNumber,
}

/// Expected post-dispatch state of the parachain finality tracker.
#[derive(Clone, Copy, Debug, PartialEq, Eq, Structural)]
pub struct ExpectedParachainState {
    /// Relay-chain block number at which the parachain head has been updated.
    pub at_relay_block_number: RelayBlockNumber,
}

/// Pre-dispatch state of the message lane.
///
/// This is the state observed before the transaction executes, not the
/// expected post-dispatch state: a delivery transaction may deliver only some
/// of the messages it brings, and such partial progress is still refunded.
/// Only a transaction that delivers nothing new is refused a refund.
#[derive(Clone, Copy, Debug, PartialEq, Eq, Structural)]
pub struct MessagesState {
    /// Best delivered message nonce.
    pub best_nonce: MessageNonce,
}

/// Type of the call that the extension recognizes.
#[derive(Clone, Copy, Debug, PartialEq, Eq, Structural)]
pub enum CallType {
    /// Relay chain finality + parachain finality + message delivery calls.
    AllFinalityAndDelivery(ExpectedRelayChainState, ExpectedParachainState, MessagesState),
    /// Parachain finality + message delivery calls.
    ParachainFinalityAndDelivery(ExpectedParachainState, MessagesState),
    /// Standalone message delivery call.
    Delivery(MessagesState),
}

impl CallType {
    /// The message-lane state captured when the call was classified,
    /// whichever variant carries it.
    pub open spec fn pre_dispatch_messages_state_spec(self) -> MessagesState {
        match self {
            CallType::AllFinalityAndDelivery(_, _, messages_state) => messages_state,
            CallType::ParachainFinalityAndDelivery(_, messages_state) => messages_state,
            CallType::Delivery(messages_state) => messages_state,
        }
    }

    /// Returns the pre-dispatch message-lane state carried by the call type.
    pub fn pre_dispatch_messages_state(&self) -> (r: MessagesState)
        ensures
            r == self.pre_dispatch_messages_state_spec(),
    {
        match *self {
            CallType::AllFinalityAndDelivery(_, _, messages_state) => messages_state,
            CallType::ParachainFinalityAndDelivery(_, messages_state) => messages_state,
            CallType::Delivery(messages_state) => messages_state,
        }
    }
}

/// Data crafted by `pre_dispatch` and consumed by `post_dispatch`.
#[derive(Clone, Copy, Debug, PartialEq, Eq, Structural)]
pub struct PreDispatchData {
    /// Transaction submitter (relayer) account.
    pub relayer: AccountId,
    /// Type of the call.
    pub call_type: CallType,
}

/// Reason a transaction is rejected before it enters a block.
#[derive(Clone, Copy, Debug, PartialEq, Eq, Structural)]
pub enum ValidityError {
    /// A nested sub-call submits state the trackers already hold.
    Stale,
}

/// Failure reported by the execution of the wrapped transaction.
#[derive(Clone, Copy, Debug, PartialEq, Eq, Structural)]
pub enum DispatchError {
    /// The transaction's origin was not allowed to dispatch it.
    BadOrigin,
}

/// Declared dispatch information of a transaction, known before execution.
#[derive(Clone, Copy, Debug, PartialEq, Eq)]
pub struct DispatchInfo {
    /// Declared weight of the call.
    pub weight: u64,
}

/// Dispatch information known after execution.
#[derive(Clone, Copy, Debug, PartialEq, Eq)]
pub struct PostDispatchInfo {
    /// Weight actually spent by the call, if the execution reported it.
    pub actual_weight: Option<u64>,
}

} // verus!
