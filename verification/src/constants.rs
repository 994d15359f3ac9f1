//! Protocol-wide constants: the basis-point denominator, the global minimum
//! bid and the default settings a new auction series starts with.

use vstd::prelude::*;

verus! {

/// Basic conversion from SOL to lamports.
pub const LAMPORTS_PER_SOL: u64 = 1_000_000_000;

/// Protocol-wide minimum bid value (0.01 SOL): the escalated bid price never
/// falls below this floor.
pub const MIN_BID_VALUE_LAMPORTS: u64 = LAMPORTS_PER_SOL / 100;

/// Denominator for basis points: 1 bps = 0.01% = 1/10,000.
pub const BPS_DENOM: u64 = 10_000;

/// Default countdown length: number of ticks without a new bid after which
/// the current leader wins.
pub const DEFAULT_SLOTS_TO_WIN: u64 = 150;

/// Default escalation rate for the minimum bid: 100 bps = 1% of the pot.
pub const DEFAULT_BID_VALUE_RATE_BPS: u16 = 100;

/// Default platform fee share of each bid: 1,000 bps = 10%.
pub const DEFAULT_FEE_BPS: u16 = 1_000;

/// Default share of each bid that goes to the active pot: 5,000 bps = 50%.
pub const DEFAULT_POT_BPS: u16 = 5_000;

/// Default share of each bid that goes to the reserve pot: 4,000 bps = 40%.
pub const DEFAULT_NEXT_BPS: u16 = 4_000;

/// Reserve floor: the minimum balance each pot must retain; amounts below it
/// are never paid out.
pub const VAULT_MIN_LAMPORTS: u64 = 1_000_000;

} // verus!
