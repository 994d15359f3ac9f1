//! One-time setup of an auction series: builds the default settings and an
//! IDLE round state, and tops both pots up to the reserve floor from the
//! payer. Like every operation it is all-or-nothing: if the payer cannot
//! cover both top-ups, no balance changes.

use vstd::prelude::*;
use crate::constants::{
    DEFAULT_BID_VALUE_RATE_BPS, DEFAULT_FEE_BPS, DEFAULT_NEXT_BPS, DEFAULT_POT_BPS,
    DEFAULT_SLOTS_TO_WIN, MIN_BID_VALUE_LAMPORTS, VAULT_MIN_LAMPORTS,
};
use crate::errors::ErrorCode;
use crate::state::{GameSettings, GameState, Identity};
use crate::utils::seed_vault_to_target;

verus! {

/// The round state a new series starts with: IDLE, minimum bid at the
/// protocol floor, no leader, no deadline, no winner yet.
pub open spec fn default_game_state() -> GameState {
    GameState {
        bid_value: MIN_BID_VALUE_LAMPORTS,
        last_bidder: None,
        final_slot: 0,
        last_winner: None,
    }
}

/// The protocol-default settings of a new series, satisfying the settings
/// invariant: a 10%/50%/40% split, 1% escalation, and no fixed bid override.
pub open spec fn default_settings(authority: Identity, fee_account: Identity) -> GameSettings {
    GameSettings {
        slots_to_win: DEFAULT_SLOTS_TO_WIN,
        authority,
        fee_account,
        bid_value_rate_bps: DEFAULT_BID_VALUE_RATE_BPS,
        fee_bps: DEFAULT_FEE_BPS,
        pot_bps: DEFAULT_POT_BPS,
        next_bps: DEFAULT_NEXT_BPS,
        vault_min_lamports: VAULT_MIN_LAMPORTS,
        bid_value: 0,
    }
}

/// Creates a new auction series governed by `authority`, with fees going to
/// `fee_account`.
///
/// Returns the IDLE round state and the default settings for the host to
/// persist, after topping each pot up to the reserve floor from
/// `payer_balance`. Fails with `InsufficientFunds`, changing nothing, when
/// the payer cannot cover both top-ups together.
pub fn initialize_state(
    authority: Identity,
    fee_account: Identity,
    payer_balance: &mut u64,
    pot_balance: &mut u64,
    next_pot_balance: &mut u64,
) -> (r: Result<(GameState, GameSettings), ErrorCode>)
    ensures
        r is Ok <==> *old(payer_balance) >= VAULT_MIN_LAMPORTS.saturating_sub(*old(pot_balance))
            + VAULT_MIN_LAMPORTS.saturating_sub(*old(next_pot_balance)),
        r is Err ==> *final(payer_balance) == *old(payer_balance) && *final(pot_balance) == *old(
            pot_balance,
        ) && *final(next_pot_balance) == *old(next_pot_balance) && r == Err::<
            (GameState, GameSettings),
            ErrorCode,
        >(ErrorCode::InsufficientFunds),
        r is Ok ==> ({
            let missing_pot = VAULT_MIN_LAMPORTS.saturating_sub(*old(pot_balance));
            let missing_next = VAULT_MIN_LAMPORTS.saturating_sub(*old(next_pot_balance));
            &&& *final(payer_balance) == *old(payer_balance) - missing_pot - missing_next
            &&& *final(pot_balance) == *old(pot_balance) + missing_pot
            &&& *final(next_pot_balance) == *old(next_pot_balance) + missing_next
            &&& *final(pot_balance) >= VAULT_MIN_LAMPORTS
            &&& *final(next_pot_balance) >= VAULT_MIN_LAMPORTS
            &&& *final(payer_balance) + *final(pot_balance) + *final(next_pot_balance) == *old(
                payer_balance,
            ) + *old(pot_balance) + *old(next_pot_balance)
            &&& r == Ok::<(GameState, GameSettings), ErrorCode>(
                (default_game_state(), default_settings(authority, fee_account)),
            )
        }),
        r is Ok ==> default_settings(authority, fee_account).wf(),
{
    let missing_pot = VAULT_MIN_LAMPORTS.saturating_sub(*pot_balance);
    let missing_next = VAULT_MIN_LAMPORTS.saturating_sub(*next_pot_balance);
    if *payer_balance < missing_pot + missing_next {
        return Err(ErrorCode::InsufficientFunds);
    }

    match seed_vault_to_target(payer_balance, pot_balance, VAULT_MIN_LAMPORTS) {
        Ok(()) => (),
        Err(e) => {
            return Err(e);
        },
    }
    match seed_vault_to_target(payer_balance, next_pot_balance, VAULT_MIN_LAMPORTS) {
        Ok(()) => (),
        Err(e) => {
            return Err(e);
        },
    }

    let state = GameState {
        bid_value: MIN_BID_VALUE_LAMPORTS,
        last_bidder: None,
        final_slot: 0,
        last_winner: None,
    };
    let settings = GameSettings {
        slots_to_win: DEFAULT_SLOTS_TO_WIN,
        authority,
        fee_account,
        bid_value_rate_bps: DEFAULT_BID_VALUE_RATE_BPS,
        fee_bps: DEFAULT_FEE_BPS,
        pot_bps: DEFAULT_POT_BPS,
        next_bps: DEFAULT_NEXT_BPS,
        vault_min_lamports: VAULT_MIN_LAMPORTS,
        bid_value: 0,
    };

    Ok((state, settings))
}

} // verus!
