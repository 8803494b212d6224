//! A token-vesting accounting engine.
//!
//! An administrator deposits a fixed pool of tokens for a beneficiary, who may
//! withdraw a linearly growing, cliff-gated fraction of that pool over time.
//! This crate holds the verified core: the entities that track schedule
//! parameters and claimed amounts, and the computation of how much is
//! claimable at any moment, with no double spend, no premature release and no
//! overflow. Account storage, signature checks and the actual movement of
//! token balances belong to the surrounding runtime, which hands this library
//! plain values and carries out the transfers it authorizes.

pub mod errors;
pub mod laws;
pub mod vault;
pub mod vesting;
