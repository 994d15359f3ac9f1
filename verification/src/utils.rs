//! The value-movement primitive of the engine's balance model, the vault
//! seeding helper, and the bid-price escalation formula.
//!
//! Balances are plain `u64` lamport amounts owned by the caller. A transfer
//! is atomic: it either moves the whole amount or changes nothing and
//! reports why.

use vstd::prelude::*;
use crate::constants::{BPS_DENOM, MIN_BID_VALUE_LAMPORTS};
use crate::errors::ErrorCode;

verus! {

/// `a * b`, saturated at `u64::MAX`, as the split and escalation arithmetic
/// computes it.
pub open spec fn sat_mul(a: u64, b: u64) -> u64 {
    if a * b > u64::MAX {
        u64::MAX
    } else {
        (a * b) as u64
    }
}

/// The escalated minimum bid: `rate_bps` basis points of `pot_balance`,
/// floored at the protocol-wide minimum bid value.
pub open spec fn spec_bid_value(pot_balance: u64, rate_bps: u16) -> u64 {
    let calc = sat_mul(pot_balance, rate_bps as u64) / BPS_DENOM;
    if calc < MIN_BID_VALUE_LAMPORTS {
        MIN_BID_VALUE_LAMPORTS
    } else {
        calc
    }
}

/// Moves `amount` from `from` to `to`, all or nothing. A zero amount is a
/// no-op success. Fails with `InsufficientFunds` when the source balance is
/// smaller than `amount`, and with `MathOverflow` when the destination
/// balance would exceed `u64::MAX`; on failure neither balance changes.
pub fn transfer_lamports(from: &mut u64, to: &mut u64, amount: u64) -> (r: Result<(), ErrorCode>)
    ensures
        r is Ok <==> *old(from) >= amount && *old(to) + amount <= u64::MAX,
        r is Ok ==> *final(from) == *old(from) - amount && *final(to) == *old(to) + amount,
        r is Err ==> *final(from) == *old(from) && *final(to) == *old(to),
        *old(from) < amount ==> r == Err::<(), ErrorCode>(ErrorCode::InsufficientFunds),
        *old(from) >= amount && *old(to) + amount > u64::MAX ==> r == Err::<(), ErrorCode>(
            ErrorCode::MathOverflow,
        ),
{
    if amount == 0 {
        return Ok(());
    }
    if *from < amount {
        return Err(ErrorCode::InsufficientFunds);
    }
    match to.checked_add(amount) {
        Some(new_to) => {
            *from = *from - amount;
            *to = new_to;
            Ok(())
        },
        None => Err(ErrorCode::MathOverflow),
    }
}

/// Tops `vault` up to `target` from `payer`: transfers exactly the missing
/// amount, or nothing when the vault already holds at least `target`. Fails
/// with `InsufficientFunds`, changing nothing, when the payer cannot cover
/// the missing amount.
pub fn seed_vault_to_target(payer: &mut u64, vault: &mut u64, target: u64) -> (r: Result<
    (),
    ErrorCode,
>)
    ensures
        r is Ok <==> *old(vault) >= target || *old(payer) >= target - *old(vault),
        r is Ok ==> *final(vault) == if *old(vault) >= target {
            *old(vault)
        } else {
            target
        },
        r is Ok ==> *final(payer) == *old(payer) - (if *old(vault) >= target {
            0u64
        } else {
            (target - *old(vault)) as u64
        }),
        r is Err ==> *final(payer) == *old(payer) && *final(vault) == *old(vault) && r == Err::<
            (),
            ErrorCode,
        >(ErrorCode::InsufficientFunds),
{
    let current = *vault;
    if current < target {
        let missing = target - current;
        transfer_lamports(payer, vault, missing)
    } else {
        Ok(())
    }
}

/// The escalated minimum bid for the next bid: `bid_value_rate_bps` basis
/// points of the active pot balance (saturating), never below the
/// protocol-wide minimum bid value.
pub fn get_bid_value_bps(pot_balance: u64, bid_value_rate_bps: u16) -> (r: u64)
    ensures
        r == spec_bid_value(pot_balance, bid_value_rate_bps),
        r >= MIN_BID_VALUE_LAMPORTS,
{
    let product = match pot_balance.checked_mul(bid_value_rate_bps as u64) {
        Some(p) => p,
        None => u64::MAX,
    };
    let calc = product / BPS_DENOM;
    if calc < MIN_BID_VALUE_LAMPORTS {
        MIN_BID_VALUE_LAMPORTS
    } else {
        calc
    }
}

} // verus!
