//! The failures that the engine reports to its callers.

use vstd::prelude::*;

verus! {

/// Every failure of the library; each leaves the state it was given unchanged.
#[derive(Clone, Copy, Debug, PartialEq, Eq, Structural)]
pub enum ContractError {
    /// The authorization collaborator refused the caller.
    Unauthorized,
    /// A withdrawal exceeds the balance of its collateral source.
    InsufficientBalance,
    /// A redemption exceeds the caller's balance.
    InsufficientFunds,
    /// Collateral is below what the outstanding supply requires.
    InsufficientCollateral { required: u128, available: u128 },
    /// A result does not fit in 128 bits.
    Overflow,
    /// A division by zero was asked for.
    DivideByZero,
    /// A mint would take the supply over its cap.
    CapExceeded,
    /// A configuration value is outside its policy bounds.
    InvalidConfiguration,
    /// A price that cannot be used.
    InvalidPrice,
    /// An amount that cannot be used or read.
    InvalidAmount,
    /// A token that is not one of the collateral sources.
    InvalidToken,
    /// The funds sent do not pay for the operation.
    InvalidFunds,
    /// A name that the configuration does not know.
    UnknownContract,
    /// The detected network is not the one that was expected.
    NetworkMismatch,
    /// A message payload without the fields it needs.
    InvalidPayload,
    /// A proposal that is not open for the requested step.
    InvalidProposalState,
    /// Too few votes were cast for a proposal to be decided.
    QuorumNotReached,
}

} // verus!
