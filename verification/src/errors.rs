//! Error taxonomy of the vesting program.

use vstd::prelude::*;

verus! {

/// Every distinct failure a vesting transition can report.
#[derive(Clone, Copy, Debug, PartialEq, Eq, Structural)]
pub enum VestingError {
    NotSigner,
    InvalidSystemProgram,
    InvalidTokenProgram,
    InvalidRentSysvar,
    InvalidVestingPeriod,
    CliffExceedsVesting,
    InvalidPercentage,
    InvalidRecipientCount,
    InvalidTotalPercentage,
    DuplicateRecipient,
    ZeroPercentage,
    InvalidPDA,
    AlreadyInitialized,
    NotInitialized,
    AlreadyFunded,
    InvalidAmount,
    InvalidTokenOwner,
    MintMismatch,
    InsufficientFunds,
    NotFunded,
    InvalidAuthority,
    InvalidRecipientATA,
    NoClaimableAmount,
    UnauthorizedAccess,
    NoTokensToWithdraw,
    Overflow,
    Underflow,
    InvalidInstructionData,
    NotInitializer,
    VestingFinalized,
    NotFinalized,
    DistributionCooldown,
    VestingDurationTooLong,
    CliffDurationTooLong,
    InvalidAccountOwner,
    InvalidMint,
    InvalidClockSysvar,
    InvalidATACount,
    InvalidRecipientWallet,
}

/// Failures of the instruction decoder.
#[derive(Clone, Copy, Debug, PartialEq, Eq, Structural)]
pub enum InstructionError {
    InvalidInstructionData,
    InvalidRecipientCount,
    InvalidTotalPercentage,
}

/// What a transition reports: either one of the vesting rules failed, or a
/// stored account's bytes do not decode as the expected account type.
#[derive(Clone, Copy, Debug, PartialEq, Eq, Structural)]
pub enum TransitionError {
    Vesting(VestingError),
    InvalidAccountData,
}

} // verus!
