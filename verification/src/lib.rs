//! Conditional-reward middleware for a cross-chain bridge.
//!
//! Relayers submit transactions that carry finality proofs, parachain heads
//! and message-delivery proofs from a bridged chain. This library decides
//! whether such a transaction actually advanced the tracked bridge state and,
//! only if it did, computes and registers a fee refund for the relayer.
//!
//! The decision logic is a three-hook lifecycle run by an external dispatch
//! pipeline: `validate` rejects batches that carry obsolete submissions,
//! `pre_dispatch` classifies the call and captures the pre-execution state,
//! and `post_dispatch` compares the post-execution state against what the
//! transaction claimed, registering a reward only when every check passes.
//! Chain state is handed to each hook as an explicit snapshot, and the reward
//! ledger is an explicit value, so every decision is a function of its
//! arguments.

pub mod call;
pub mod classify;
pub mod extension;
pub mod guard;
pub mod lookup;
pub mod reward;
pub mod state;
pub mod types;
