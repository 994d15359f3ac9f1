//! The error taxonomy of the engine. Every failing operation reports exactly
//! one of these and leaves all state and balances unchanged.

use vstd::prelude::*;

verus! {

/// Why an operation was rejected. Each operation's `ensures` states exactly
/// on which inputs each variant is returned.
#[derive(Clone, Copy, Debug, PartialEq, Eq, Structural)]
pub enum ErrorCode {
    /// The caller is not the settings authority.
    Unauthorized,
    /// A single settings field fails its own validation.
    InvalidValue,
    /// The fee/pot/reserve split does not sum to 10,000 bps.
    InvalidPercentages,
    /// A computed value would exceed the representable range.
    MathOverflow,
    /// A bid arrived after the round expired; settlement must run first.
    BidIsOver,
    /// Settlement was attempted with no leading bidder or before expiry.
    GameInProgress,
    /// The settlement claimant is not the recorded leading bidder.
    WrongWinner,
    /// The fee destination handed in does not match the settings.
    WrongFeeAccount,
    /// A transfer's source balance is smaller than the amount to move.
    InsufficientFunds,
}

} // verus!
