//! The settlement protocol: once a round has expired, the recorded leading
//! bidder claims everything in the active pot above the reserve floor, the
//! reserve pot above its floor rotates into the active pot to seed the next
//! round, and the round state resets to IDLE. Settlement is all-or-nothing:
//! on any failure no balance and no round state changes.

use vstd::prelude::*;
use crate::constants::MIN_BID_VALUE_LAMPORTS;
use crate::errors::ErrorCode;
use crate::events::GameEnded;
use crate::state::{GameSettings, GameState, Identity};
use crate::utils::transfer_lamports;

verus! {

/// Settlement is possible exactly when a leading bidder is recorded and the
/// current tick has reached the deadline.
pub open spec fn can_settle(state: GameState, current_slot: u64) -> bool {
    state.last_bidder is Some && current_slot >= state.final_slot
}

/// The prize of a settlement: everything in the active pot above the
/// reserve floor; the floor itself is never paid out.
pub open spec fn prize_of(pot_balance: u64, vault_min: u64) -> u64 {
    pot_balance.saturating_sub(vault_min)
}

/// The rotation amount of a settlement: everything in the reserve pot above
/// the reserve floor.
pub open spec fn movable_of(next_pot_balance: u64, vault_min: u64) -> u64 {
    next_pot_balance.saturating_sub(vault_min)
}

/// Pays the prize out of the active pot to the winner; a zero prize is a
/// no-op success. In the hosting environment this debit is self-authorized
/// by the pot; in the balance model it is a plain transfer.
fn transfer_prize(pot: &mut u64, winner: &mut u64, prize: u64) -> (r: Result<(), ErrorCode>)
    ensures
        r is Ok <==> *old(pot) >= prize && *old(winner) + prize <= u64::MAX,
        r is Ok ==> *final(pot) == *old(pot) - prize && *final(winner) == *old(winner) + prize,
        r is Err ==> *final(pot) == *old(pot) && *final(winner) == *old(winner),
{
    if prize == 0 {
        return Ok(());
    }
    transfer_lamports(pot, winner, prize)
}

/// Rolls the movable part of the reserve pot into the active pot to seed the
/// next round; a zero amount is a no-op success.
fn rotate_pots(next_pot: &mut u64, pot: &mut u64, amount: u64) -> (r: Result<(), ErrorCode>)
    ensures
        r is Ok <==> *old(next_pot) >= amount && *old(pot) + amount <= u64::MAX,
        r is Ok ==> *final(next_pot) == *old(next_pot) - amount && *final(pot) == *old(pot)
            + amount,
        r is Err ==> *final(next_pot) == *old(next_pot) && *final(pot) == *old(pot),
{
    if amount == 0 {
        return Ok(());
    }
    transfer_lamports(next_pot, pot, amount)
}

/// Expiry is detected, not driven: at every tick the round either accepts
/// bids or is ready for settlement, never both and never neither.
pub proof fn lemma_bid_and_settle_exclusive(state: GameState, current_slot: u64)
    ensures
        crate::bid::bid_allowed(state, current_slot) <==> !can_settle(state, current_slot),
{
}

/// A round that was just reset has no leading bidder, so a second settlement
/// attempt, at any tick, is impossible: by the contract of `endgame` it is
/// rejected with `GameInProgress` and changes nothing — the prize cannot be
/// paid twice.
pub proof fn lemma_settle_not_reentrant(state: GameState, current_slot: u64)
    requires
        state.last_bidder is None,
    ensures
        !can_settle(state, current_slot),
{
}

/// Settles an expired round in favour of `winner` at tick `current_slot`.
///
/// Fails with `GameInProgress` when no leading bidder is recorded or the
/// deadline has not been reached, and with `WrongWinner` when `winner` is
/// not the recorded leading bidder; on every failure nothing changes. On
/// success the prize — the active pot above the reserve floor — moves to
/// the winner, the reserve pot above its floor rotates into the active pot,
/// and the round resets: no leading bidder, deadline 0, minimum bid back at
/// the protocol floor, the winner recorded. Neither pot ends below the
/// reserve floor it started above.
pub fn endgame(
    settings: &GameSettings,
    state: &mut GameState,
    winner: Identity,
    current_slot: u64,
    winner_balance: &mut u64,
    pot_balance: &mut u64,
    next_pot_balance: &mut u64,
) -> (r: Result<GameEnded, ErrorCode>)
    ensures
        r is Err ==> *final(state) == *old(state) && *final(winner_balance) == *old(winner_balance)
            && *final(pot_balance) == *old(pot_balance) && *final(next_pot_balance) == *old(
            next_pot_balance,
        ),
        r == Err::<GameEnded, ErrorCode>(ErrorCode::GameInProgress) <==> !can_settle(
            *old(state),
            current_slot,
        ),
        can_settle(*old(state), current_slot) ==> (r == Err::<GameEnded, ErrorCode>(
            ErrorCode::WrongWinner,
        ) <==> old(state).last_bidder != Some(winner)),
        can_settle(*old(state), current_slot) && old(state).last_bidder == Some(winner) ==> (r is Ok
            <==> *old(winner_balance) + prize_of(*old(pot_balance), settings.vault_min_lamports)
            <= u64::MAX),
        can_settle(*old(state), current_slot) && old(state).last_bidder == Some(winner) && r is Err
            ==> r == Err::<GameEnded, ErrorCode>(ErrorCode::MathOverflow),
        r is Ok ==> ({
            let prize = prize_of(*old(pot_balance), settings.vault_min_lamports);
            let movable = movable_of(*old(next_pot_balance), settings.vault_min_lamports);
            &&& *final(winner_balance) == *old(winner_balance) + prize
            &&& *final(pot_balance) == *old(pot_balance) - prize + movable
            &&& *final(next_pot_balance) == *old(next_pot_balance) - movable
            &&& *final(winner_balance) + *final(pot_balance) + *final(next_pot_balance) == *old(
                winner_balance,
            ) + *old(pot_balance) + *old(next_pot_balance)
            &&& (*old(pot_balance) >= settings.vault_min_lamports ==> *final(pot_balance)
                >= settings.vault_min_lamports)
            &&& (*old(next_pot_balance) >= settings.vault_min_lamports
                ==> *final(next_pot_balance) == settings.vault_min_lamports)
            &&& *final(state) == (GameState {
                bid_value: MIN_BID_VALUE_LAMPORTS,
                last_bidder: None,
                final_slot: 0,
                last_winner: Some(winner),
            })
            &&& r == Ok::<GameEnded, ErrorCode>(
                GameEnded {
                    winner,
                    prize,
                    pot_balance_after: *final(pot_balance),
                    next_pot_balance_after: *final(next_pot_balance),
                    slot: current_slot,
                },
            )
        }),
{
    if state.last_bidder.is_none() {
        return Err(ErrorCode::GameInProgress);
    }
    if current_slot < state.final_slot {
        return Err(ErrorCode::GameInProgress);
    }
    let last = state.last_bidder.unwrap();
    if winner != last {
        return Err(ErrorCode::WrongWinner);
    }

    let min_vault = settings.vault_min_lamports;

    let prize = pot_balance.saturating_sub(min_vault);
    if winner_balance.checked_add(prize).is_none() {
        return Err(ErrorCode::MathOverflow);
    }
    match transfer_prize(pot_balance, winner_balance, prize) {
        Ok(()) => (),
        Err(e) => {
            return Err(e);
        },
    }

    let movable = next_pot_balance.saturating_sub(min_vault);
    match rotate_pots(next_pot_balance, pot_balance, movable) {
        Ok(()) => (),
        Err(e) => {
            return Err(e);
        },
    }

    state.last_winner = Some(last);
    state.last_bidder = None;
    state.final_slot = 0;
    state.bid_value = MIN_BID_VALUE_LAMPORTS;

    Ok(
        GameEnded {
            winner: last,
            prize,
            pot_balance_after: *pot_balance,
            next_pot_balance_after: *next_pot_balance,
            slot: current_slot,
        },
    )
}

} // verus!
