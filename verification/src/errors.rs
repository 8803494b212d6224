//! The error taxonomy of the vesting engine.
//!
//! Every failure is a synchronous, typed rejection of the whole operation;
//! no partial state survives a failure.

use vstd::prelude::*;

verus! {

/// Why an operation of the vesting engine was rejected.
#[derive(Clone, Copy, Debug, PartialEq, Eq, Structural)]
pub enum ErrorCode {
    /// The custodial pool does not hold enough tokens for the transfer.
    VaultOutOfToken,
    /// The cliff period is still active; claims open only after it ends.
    CliffPeriodNotOver,
    /// Every vested token has already been claimed; nothing new to release.
    AllTokensClaimed,
    /// The granted amount must be greater than zero.
    TokensTooLow,
    /// The end of the schedule must lie strictly in the future.
    EndTimeMustBeInFuture,
    /// The cliff must end strictly before the schedule ends.
    InvalidCliffPeriod,
}

impl ErrorCode {
    /// A human-readable description of the error.
    pub fn message(&self) -> &'static str {
        match self {
            ErrorCode::VaultOutOfToken => "Vault of out tokens",
            ErrorCode::CliffPeriodNotOver => {
                "Cliff period is Active, You can start claiming after it ends"
            },
            ErrorCode::AllTokensClaimed => "All tokens claimed, no vested tokens available",
            ErrorCode::TokensTooLow => "Total tokens must be greater than zero",
            ErrorCode::EndTimeMustBeInFuture => "End time must be in the future",
            ErrorCode::InvalidCliffPeriod => {
                "Cliff period till must be between started_at and end_at"
            },
        }
    }
}

} // verus!
