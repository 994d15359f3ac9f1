//! A perpetual escalating-bid auction: the last bidder standing when the
//! countdown expires may claim the accumulated pot, after which a new round
//! begins, seeded from a rollover reserve.
//!
//! The engine operates on explicitly passed state: the series settings
//! ([`state::GameSettings`]), the round state ([`state::GameState`]) and plain
//! `u64` balances for the two pots and the participants. The hosting
//! environment is responsible for durable storage, caller authentication and
//! executing each operation transactionally; the engine itself is a set of
//! synchronous, all-or-nothing operations whose effects are fully specified.

pub mod bid;
pub mod constants;
pub mod endgame;
pub mod errors;
pub mod events;
pub mod initialize_state;
pub mod state;
pub mod update_settings;
pub mod utils;
