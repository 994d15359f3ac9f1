//! Authority-gated settings mutation. A patch of optional fields is
//! validated field by field, then the resulting settings are held to the
//! cross-field split invariant; any failure leaves every field unchanged —
//! the update is atomic.

use vstd::prelude::*;
use crate::constants::BPS_DENOM;
use crate::errors::ErrorCode;
use crate::events::SettingsUpdated;
use crate::state::{GameSettings, Identity, SettingsUpdate};

verus! {

/// Every present field of the patch passes its own validation: a positive
/// countdown, an escalation rate in (0, 10000], and each split share within
/// [0, 10000]. Identities and the fixed bid override (0 disables it) accept
/// any value.
pub open spec fn patch_fields_valid(update: SettingsUpdate) -> bool {
    &&& (update.slots_to_win matches Some(v) ==> v > 0)
    &&& (update.bid_value_rate_bps matches Some(v) ==> 0 < v <= BPS_DENOM)
    &&& (update.fee_bps matches Some(v) ==> v <= BPS_DENOM)
    &&& (update.pot_bps matches Some(v) ==> v <= BPS_DENOM)
    &&& (update.next_bps matches Some(v) ==> v <= BPS_DENOM)
}

/// The settings that result from applying every present field of the patch
/// over the stored settings.
pub open spec fn apply_update(s: GameSettings, u: SettingsUpdate) -> GameSettings {
    GameSettings {
        slots_to_win: match u.slots_to_win { Some(v) => v, None => s.slots_to_win },
        authority: match u.new_authority { Some(v) => v, None => s.authority },
        fee_account: match u.new_fee_account { Some(v) => v, None => s.fee_account },
        bid_value_rate_bps: match u.bid_value_rate_bps {
            Some(v) => v,
            None => s.bid_value_rate_bps,
        },
        fee_bps: match u.fee_bps { Some(v) => v, None => s.fee_bps },
        pot_bps: match u.pot_bps { Some(v) => v, None => s.pot_bps },
        next_bps: match u.next_bps { Some(v) => v, None => s.next_bps },
        vault_min_lamports: s.vault_min_lamports,
        bid_value: match u.bid_value { Some(v) => v, None => s.bid_value },
    }
}

/// The cross-field split invariant: the three shares sum to 10,000 bps.
pub open spec fn percentages_ok(s: GameSettings) -> bool {
    s.fee_bps + s.pot_bps + s.next_bps == BPS_DENOM
}

/// Applies `update` to `settings` on behalf of `authority`.
///
/// Only the recorded authority may update. Each present field is validated
/// on its own, then the split invariant is re-checked against the resulting
/// settings — not the patch alone — so a patch that validates field by
/// field can still be rejected whole with `InvalidPercentages`. The update
/// is atomic: on any failure every field keeps its prior value. On success
/// the returned notification carries the resulting full snapshot, and a
/// well-formed settings record stays well-formed.
pub fn update_settings(
    settings: &mut GameSettings,
    authority: Identity,
    update: SettingsUpdate,
) -> (r: Result<SettingsUpdated, ErrorCode>)
    ensures
        r is Err ==> *final(settings) == *old(settings),
        r == Err::<SettingsUpdated, ErrorCode>(ErrorCode::Unauthorized) <==> authority != old(
            settings,
        ).authority,
        authority == old(settings).authority ==> (r == Err::<SettingsUpdated, ErrorCode>(
            ErrorCode::InvalidValue,
        ) <==> !patch_fields_valid(update)),
        authority == old(settings).authority && patch_fields_valid(update) ==> (r == Err::<
            SettingsUpdated,
            ErrorCode,
        >(ErrorCode::InvalidPercentages) <==> !percentages_ok(apply_update(*old(settings), update))),
        r is Ok <==> authority == old(settings).authority && patch_fields_valid(update)
            && percentages_ok(apply_update(*old(settings), update)),
        r is Ok ==> *final(settings) == apply_update(*old(settings), update),
        r is Ok && old(settings).wf() ==> final(settings).wf(),
        r is Ok ==> r == Ok::<SettingsUpdated, ErrorCode>(
            SettingsUpdated {
                slots_to_win: final(settings).slots_to_win,
                new_authority: final(settings).authority,
                new_fee_account: final(settings).fee_account,
                bid_value_rate_bps: final(settings).bid_value_rate_bps,
                fee_bps: final(settings).fee_bps,
                pot_bps: final(settings).pot_bps,
                next_bps: final(settings).next_bps,
                vault_min_lamports: final(settings).vault_min_lamports,
                bid_value: final(settings).bid_value,
            },
        ),
{
    if authority != settings.authority {
        return Err(ErrorCode::Unauthorized);
    }

    let mut s = *settings;

    if let Some(slots) = update.slots_to_win {
        if slots == 0 {
            return Err(ErrorCode::InvalidValue);
        }
        s.slots_to_win = slots;
    }
    if let Some(new_auth) = update.new_authority {
        s.authority = new_auth;
    }
    if let Some(new_fee) = update.new_fee_account {
        s.fee_account = new_fee;
    }
    if let Some(rate_bps) = update.bid_value_rate_bps {
        if rate_bps == 0 || rate_bps as u64 > BPS_DENOM {
            return Err(ErrorCode::InvalidValue);
        }
        s.bid_value_rate_bps = rate_bps;
    }
    if let Some(fee_bps) = update.fee_bps {
        if fee_bps as u64 > BPS_DENOM {
            return Err(ErrorCode::InvalidValue);
        }
        s.fee_bps = fee_bps;
    }
    if let Some(pot_bps) = update.pot_bps {
        if pot_bps as u64 > BPS_DENOM {
            return Err(ErrorCode::InvalidValue);
        }
        s.pot_bps = pot_bps;
    }
    if let Some(next_bps) = update.next_bps {
        if next_bps as u64 > BPS_DENOM {
            return Err(ErrorCode::InvalidValue);
        }
        s.next_bps = next_bps;
    }
    if let Some(bid_value) = update.bid_value {
        s.bid_value = bid_value;
    }

    let total = s.fee_bps as u64 + s.pot_bps as u64 + s.next_bps as u64;
    if total != BPS_DENOM {
        return Err(ErrorCode::InvalidPercentages);
    }

    *settings = s;

    Ok(
        SettingsUpdated {
            slots_to_win: s.slots_to_win,
            new_authority: s.authority,
            new_fee_account: s.fee_account,
            bid_value_rate_bps: s.bid_value_rate_bps,
            fee_bps: s.fee_bps,
            pot_bps: s.pot_bps,
            next_bps: s.next_bps,
            vault_min_lamports: s.vault_min_lamports,
            bid_value: s.bid_value,
        },
    )
}

} // verus!
