//! The closed vocabulary of calls the extension inspects.
//!
//! An incoming transaction is either a batch-all composite or a single call.
//! Each sub-call carries exactly the fields the classification and the
//! obsolescence guard read: the claimed finalized relay block, the claimed
//! parachain-head anchor and the named parachains, or the lane and nonce
//! range of a message-delivery proof. Every other call shape is `Other`.

use vstd::prelude::*;
use crate::types::{LaneId, MessageNonce, ParaId, RelayBlockNumber};

verus! {

/// A non-composite call, as far as this extension reads it.
#[derive(Debug)]
pub enum SubCall {
    /// Relay-chain finality submission claiming to finalize the given block.
    SubmitFinalityProof {
        /// Block number of the header the embedded proof claims to finalize.
        finality_target_number: RelayBlockNumber,
    },
    /// Parachain-head submission anchored at the given relay block.
    SubmitParachainHeads {
        /// Relay-chain block at which the submitted heads were observed.
        at_relay_block_number: RelayBlockNumber,
        /// Parachains whose heads the submission carries.
        parachains: Vec<ParaId>,
    },
    /// Message-delivery submission for the given lane.
    ReceiveMessagesProof {
        /// Lane the embedded proof delivers on.
        lane: LaneId,
        /// First nonce the proof carries.
        nonces_start: MessageNonce,
        /// Last nonce the proof carries.
        nonces_end: MessageNonce,
    },
    /// Any call this extension does not inspect.
    Other,
}

/// An incoming transaction's call.
#[derive(Debug)]
pub enum Call {
    /// Atomic all-or-nothing composite of sub-calls.
    BatchAll {
        /// The nested sub-calls, in submission order.
        calls: Vec<SubCall>,
    },
    /// A single, unbatched call.
    Single(SubCall),
}

} // verus!
