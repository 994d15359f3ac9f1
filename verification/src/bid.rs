//! The bid-acceptance protocol: splits each bid's value between the fee
//! destination and the two pots, extends the round deadline and escalates
//! the next minimum bid. A bid is all-or-nothing: on any failure no balance
//! and no round state changes.

use vstd::prelude::*;
use vstd::arithmetic::div_mod::lemma_fundamental_div_mod;
use vstd::arithmetic::mul::{lemma_mul_inequality, lemma_mul_is_distributive_add};
use crate::constants::BPS_DENOM;
use crate::errors::ErrorCode;
use crate::events::BidPlaced;
use crate::state::{GameSettings, GameState, Identity};
use crate::utils::{get_bid_value_bps, sat_mul, spec_bid_value, transfer_lamports};

verus! {

/// The amount the next bid must pay: the fixed override when it is set,
/// otherwise the round's escalating minimum.
pub open spec fn required_bid(settings: GameSettings, state: GameState) -> u64 {
    if settings.bid_value > 0 {
        settings.bid_value
    } else {
        state.bid_value
    }
}

/// The fee share of a bid of `amount`: `fee_bps` basis points, rounded down.
pub open spec fn fee_amount(amount: u64, fee_bps: u16) -> u64 {
    sat_mul(amount, fee_bps as u64) / BPS_DENOM
}

/// The active-pot share of a bid of `amount`: `pot_bps` basis points,
/// rounded down.
pub open spec fn pot_amount(amount: u64, pot_bps: u16) -> u64 {
    sat_mul(amount, pot_bps as u64) / BPS_DENOM
}

/// The reserve-pot share of a bid of `amount`: the exact remainder after the
/// fee and active-pot shares, so that rounding never drops value.
pub open spec fn next_amount(amount: u64, fee_bps: u16, pot_bps: u16) -> u64 {
    amount.saturating_sub(fee_amount(amount, fee_bps)).saturating_sub(pot_amount(amount, pot_bps))
}

/// A bid is allowed unless the round has expired: a set leader at or past
/// the deadline means the round must be settled first.
pub open spec fn bid_allowed(state: GameState, current_slot: u64) -> bool {
    !(state.last_bidder is Some && current_slot >= state.final_slot)
}

/// An allowed bid goes through exactly when the bidder can cover the
/// required amount and no destination balance would overflow.
pub open spec fn bid_payable(
    settings: GameSettings,
    state: GameState,
    bidder_balance: u64,
    fee_balance: u64,
    pot_balance: u64,
    next_pot_balance: u64,
) -> bool {
    let amount = required_bid(settings, state);
    &&& bidder_balance >= amount
    &&& fee_balance + fee_amount(amount, settings.fee_bps) <= u64::MAX
    &&& pot_balance + pot_amount(amount, settings.pot_bps) <= u64::MAX
    &&& next_pot_balance + next_amount(amount, settings.fee_bps, settings.pot_bps) <= u64::MAX
}

/// No value is created or destroyed by the split: for every amount and every
/// valid split (shares summing to 10,000 bps), the three shares sum exactly
/// to the amount, the remainder being absorbed by the reserve share.
pub proof fn lemma_split_conserves_value(amount: u64, fee_bps: u16, pot_bps: u16, next_bps: u16)
    requires
        fee_bps + pot_bps + next_bps == BPS_DENOM,
    ensures
        fee_amount(amount, fee_bps) + pot_amount(amount, pot_bps) <= amount,
        next_amount(amount, fee_bps, pot_bps) == amount - fee_amount(amount, fee_bps)
            - pot_amount(amount, pot_bps),
        fee_amount(amount, fee_bps) + pot_amount(amount, pot_bps) + next_amount(
            amount,
            fee_bps,
            pot_bps,
        ) == amount,
{
    let a = amount as int;
    let f = fee_bps as int;
    let p = pot_bps as int;
    let d = BPS_DENOM as int;
    let sf = sat_mul(amount, fee_bps as u64) as int;
    let sp = sat_mul(amount, pot_bps as u64) as int;
    let fee = fee_amount(amount, fee_bps) as int;
    let pot = pot_amount(amount, pot_bps) as int;
    assert(sf <= a * f);
    assert(sp <= a * p);
    lemma_fundamental_div_mod(sf, d);
    lemma_fundamental_div_mod(sp, d);
    assert(d * fee <= sf);
    assert(d * pot <= sp);
    lemma_mul_is_distributive_add(a, f, p);
    assert(a * (f + p) == a * f + a * p);
    lemma_mul_inequality(f + p, d, a);
    assert((f + p) * a <= d * a);
    assert(d * (fee + pot) <= d * a) by {
        lemma_mul_is_distributive_add(d, fee, pot);
        assert(a * (f + p) == (f + p) * a) by (nonlinear_arith);
    }
    assert(fee + pot <= a) by (nonlinear_arith)
        requires
            d * (fee + pot) <= d * a,
            d > 0,
    ;
}

/// Accepts a bid from `bidder` at tick `current_slot`.
///
/// `fee_account` must be the fee destination recorded in the settings; the
/// round must not be expired (an expired round rejects with `BidIsOver` and
/// must be settled first). The required amount is then split three ways —
/// fee, active pot, reserve pot — and moved from `bidder_balance`
/// atomically: if the bidder cannot cover the amount or any destination
/// would overflow, nothing changes. On success the bidder becomes the
/// leader, the deadline is extended to `current_slot + slots_to_win`, the
/// next minimum bid is escalated from the active pot balance after this
/// bid's share was added, and the returned notification carries the
/// outcome.
pub fn bid(
    settings: &GameSettings,
    state: &mut GameState,
    bidder: Identity,
    fee_account: Identity,
    current_slot: u64,
    bidder_balance: &mut u64,
    fee_balance: &mut u64,
    pot_balance: &mut u64,
    next_pot_balance: &mut u64,
) -> (r: Result<BidPlaced, ErrorCode>)
    requires
        settings.wf(),
        current_slot + settings.slots_to_win <= u64::MAX,
    ensures
        r is Err ==> *final(state) == *old(state) && *final(bidder_balance) == *old(bidder_balance)
            && *final(fee_balance) == *old(fee_balance) && *final(pot_balance) == *old(pot_balance)
            && *final(next_pot_balance) == *old(next_pot_balance),
        r == Err::<BidPlaced, ErrorCode>(ErrorCode::WrongFeeAccount) <==> fee_account
            != settings.fee_account,
        fee_account == settings.fee_account ==> (r == Err::<BidPlaced, ErrorCode>(
            ErrorCode::BidIsOver,
        ) <==> !bid_allowed(*old(state), current_slot)),
        fee_account == settings.fee_account && bid_allowed(*old(state), current_slot) ==> (r is Ok
            <==> bid_payable(
            *settings,
            *old(state),
            *old(bidder_balance),
            *old(fee_balance),
            *old(pot_balance),
            *old(next_pot_balance),
        )),
        fee_account == settings.fee_account && bid_allowed(*old(state), current_slot) ==> (r
            == Err::<BidPlaced, ErrorCode>(ErrorCode::InsufficientFunds) <==> *old(bidder_balance)
            < required_bid(*settings, *old(state))),
        fee_account == settings.fee_account && bid_allowed(*old(state), current_slot) && r is Err
            && *old(bidder_balance) >= required_bid(*settings, *old(state)) ==> r == Err::<
            BidPlaced,
            ErrorCode,
        >(ErrorCode::MathOverflow),
        r is Ok ==> ({
            let amount = required_bid(*settings, *old(state));
            &&& *final(bidder_balance) == *old(bidder_balance) - amount
            &&& *final(fee_balance) == *old(fee_balance) + fee_amount(amount, settings.fee_bps)
            &&& *final(pot_balance) == *old(pot_balance) + pot_amount(amount, settings.pot_bps)
            &&& *final(next_pot_balance) == *old(next_pot_balance) + next_amount(
                amount,
                settings.fee_bps,
                settings.pot_bps,
            )
            &&& *final(bidder_balance) + *final(fee_balance) + *final(pot_balance)
                + *final(next_pot_balance) == *old(bidder_balance) + *old(fee_balance)
                + *old(pot_balance) + *old(next_pot_balance)
            &&& *final(state) == (GameState {
                bid_value: spec_bid_value(*final(pot_balance), settings.bid_value_rate_bps),
                last_bidder: Some(bidder),
                final_slot: (current_slot + settings.slots_to_win) as u64,
                last_winner: old(state).last_winner,
            })
            &&& r == Ok::<BidPlaced, ErrorCode>(
                BidPlaced {
                    bidder,
                    bid_value: amount,
                    final_slot: (current_slot + settings.slots_to_win) as u64,
                    pot_balance: *final(pot_balance),
                    next_pot_balance: *final(next_pot_balance),
                },
            )
        }),
{
    if fee_account != settings.fee_account {
        return Err(ErrorCode::WrongFeeAccount);
    }
    if state.last_bidder.is_some() && current_slot >= state.final_slot {
        return Err(ErrorCode::BidIsOver);
    }

    let amount = if settings.bid_value > 0 {
        settings.bid_value
    } else {
        state.bid_value
    };

    let fee_product = match amount.checked_mul(settings.fee_bps as u64) {
        Some(p) => p,
        None => u64::MAX,
    };
    let fee_amt = fee_product / BPS_DENOM;
    let pot_product = match amount.checked_mul(settings.pot_bps as u64) {
        Some(p) => p,
        None => u64::MAX,
    };
    let pot_amt = pot_product / BPS_DENOM;
    let next_pot_amt = amount.saturating_sub(fee_amt).saturating_sub(pot_amt);

    proof {
        lemma_split_conserves_value(amount, settings.fee_bps, settings.pot_bps, settings.next_bps);
    }

    if *bidder_balance < amount {
        return Err(ErrorCode::InsufficientFunds);
    }
    if fee_balance.checked_add(fee_amt).is_none() || pot_balance.checked_add(pot_amt).is_none()
        || next_pot_balance.checked_add(next_pot_amt).is_none() {
        return Err(ErrorCode::MathOverflow);
    }

    match transfer_lamports(bidder_balance, fee_balance, fee_amt) {
        Ok(()) => (),
        Err(e) => {
            return Err(e);
        },
    }
    match transfer_lamports(bidder_balance, pot_balance, pot_amt) {
        Ok(()) => (),
        Err(e) => {
            return Err(e);
        },
    }
    match transfer_lamports(bidder_balance, next_pot_balance, next_pot_amt) {
        Ok(()) => (),
        Err(e) => {
            return Err(e);
        },
    }

    state.last_bidder = Some(bidder);
    state.final_slot = current_slot + settings.slots_to_win;
    let pot_balance_after = *pot_balance;
    state.bid_value = get_bid_value_bps(pot_balance_after, settings.bid_value_rate_bps);

    Ok(
        BidPlaced {
            bidder,
            bid_value: amount,
            final_slot: state.final_slot,
            pot_balance: *pot_balance,
            next_pot_balance: *next_pot_balance,
        },
    )
}

/// Every accepted bid sets the deadline to its own tick plus the countdown
/// length, so when ticks advance between two accepted bids the second
/// deadline is strictly later than the first.
pub proof fn lemma_deadline_strictly_extends(
    first: GameState,
    second: GameState,
    slot1: u64,
    slot2: u64,
    slots_to_win: u64,
)
    requires
        first.final_slot == slot1 + slots_to_win,
        second.final_slot == slot2 + slots_to_win,
        slot1 < slot2,
    ensures
        second.final_slot > first.final_slot,
{
}

} // verus!
