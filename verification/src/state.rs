//! The data model of one auction series: the identity of a participant, the
//! validated settings of the series and the mutable state of the current
//! round.

use vstd::prelude::*;
use crate::constants::BPS_DENOM;

verus! {

/// An opaque principal of the hosting environment: a bidder, an authority or
/// a fee destination. The engine only ever compares identities for equality;
/// authentication is the host's responsibility.
#[derive(Clone, Copy, Debug, PartialEq, Eq, Structural)]
pub struct Identity(pub u64);

/// Validated configuration of one auction series; created once, mutated only
/// by its authority through `update_settings`.
#[derive(Clone, Copy, Debug, PartialEq, Eq, Structural)]
pub struct GameSettings {
    /// Countdown length added on every bid; always > 0.
    pub slots_to_win: u64,
    /// Principal allowed to mutate the settings.
    pub authority: Identity,
    /// Recipient of the protocol fee share of each bid.
    pub fee_account: Identity,
    /// Basis points of the active pot balance that set the next minimum bid;
    /// always in (0, 10000].
    pub bid_value_rate_bps: u16,
    /// Fee share of each bid, in basis points.
    pub fee_bps: u16,
    /// Active-pot share of each bid, in basis points.
    pub pot_bps: u16,
    /// Reserve-pot share of each bid, in basis points;
    /// `fee_bps + pot_bps + next_bps == 10000` at all times.
    pub next_bps: u16,
    /// Minimum balance each pot must retain (never paid out).
    pub vault_min_lamports: u64,
    /// If > 0, every bid must pay exactly this amount instead of the
    /// escalating minimum.
    pub bid_value: u64,
}

impl GameSettings {
    /// The invariant every stored settings record satisfies: established at
    /// initialization and preserved by every accepted update.
    pub open spec fn wf(self) -> bool {
        &&& self.slots_to_win > 0
        &&& 0 < self.bid_value_rate_bps <= BPS_DENOM
        &&& self.fee_bps <= BPS_DENOM
        &&& self.pot_bps <= BPS_DENOM
        &&& self.next_bps <= BPS_DENOM
        &&& self.fee_bps + self.pot_bps + self.next_bps == BPS_DENOM
    }
}

/// A partial settings update: each present field replaces the stored one,
/// and the whole patch is applied atomically or not at all.
#[derive(Clone, Copy, Debug, PartialEq, Eq, Structural)]
pub struct SettingsUpdate {
    pub slots_to_win: Option<u64>,
    pub new_authority: Option<Identity>,
    pub new_fee_account: Option<Identity>,
    pub bid_value_rate_bps: Option<u16>,
    pub fee_bps: Option<u16>,
    pub pot_bps: Option<u16>,
    pub next_bps: Option<u16>,
    pub bid_value: Option<u64>,
}

/// Mutable state of the current round. The round is IDLE when `last_bidder`
/// is `None` and `final_slot` is 0, OPEN while a leader is set and the
/// current tick is before `final_slot`, and EXPIRED once the tick reaches
/// `final_slot`; only settlement acts on an expired round.
#[derive(Clone, Copy, Debug, PartialEq, Eq, Structural)]
pub struct GameState {
    /// Minimum amount accepted for the next bid; escalates after each bid.
    pub bid_value: u64,
    /// The current leading bidder; `None` before any bid in the round.
    pub last_bidder: Option<Identity>,
    /// Tick at which bidding closes if no new bid arrives; 0 once settled.
    pub final_slot: u64,
    /// Winner of the most recently settled round, set only by settlement.
    pub last_winner: Option<Identity>,
}

} // verus!
