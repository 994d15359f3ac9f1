//! Notifications returned by the engine, one per successful operation, for
//! the host to publish to observers. They carry a snapshot of the outcome
//! and are not needed for the engine's own correctness.

use vstd::prelude::*;
use crate::state::Identity;

verus! {

/// Emitted once per accepted bid.
#[derive(Clone, Copy, Debug, PartialEq, Eq, Structural)]
pub struct BidPlaced {
    pub bidder: Identity,
    /// The amount the bid paid.
    pub bid_value: u64,
    /// The new deadline of the round.
    pub final_slot: u64,
    /// Active pot balance after the bid's shares were applied.
    pub pot_balance: u64,
    /// Reserve pot balance after the bid's shares were applied.
    pub next_pot_balance: u64,
}

/// Emitted once per settled round.
#[derive(Clone, Copy, Debug, PartialEq, Eq, Structural)]
pub struct GameEnded {
    pub winner: Identity,
    /// The amount paid to the winner.
    pub prize: u64,
    /// Active pot balance after payout and rotation.
    pub pot_balance_after: u64,
    /// Reserve pot balance after rotation.
    pub next_pot_balance_after: u64,
    /// The tick at which the round was settled.
    pub slot: u64,
}

/// Emitted once per accepted settings update: the resulting full snapshot.
#[derive(Clone, Copy, Debug, PartialEq, Eq, Structural)]
pub struct SettingsUpdated {
    pub slots_to_win: u64,
    pub new_authority: Identity,
    pub new_fee_account: Identity,
    pub bid_value_rate_bps: u16,
    pub fee_bps: u16,
    pub pot_bps: u16,
    pub next_bps: u16,
    pub vault_min_lamports: u64,
    pub bid_value: u64,
}

} // verus!
