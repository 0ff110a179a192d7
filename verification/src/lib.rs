//! Stake policy for a whitelisted set of validators: block-production
//! classification, stake-account addressing, the per-validator staking
//! decisions, transaction intents, and the state machine that follows a batch
//! of submitted transactions to finality.

pub mod accounts;
pub mod builder;
pub mod classifier;
pub mod keys;
pub mod pipeline;
pub mod policy;
pub mod text;
