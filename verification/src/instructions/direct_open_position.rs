//! DirectOpenPosition — oracle-priced synthetic open, settled purely
//! against the trader account (no matching engine).

use vstd::prelude::*;

use crate::error::{PerpRouterError, ProgramError};
use crate::instructions::place_order_perp::{
    abs_i64, abs_int, find_position, lemma_vwap_bounds, position_slot, spec_position_slot, vwap,
};
use crate::risk::envelope::{safe_oracle_read, spec_safe_oracle_read};
use crate::risk::recovery::opens_allowed;
use crate::risk::side_index::{effective_size, spec_effective_size};
use crate::state::bytes::{key_eq, Pubkey};
use crate::state::global::{GlobalState, RECOVERY_NORMAL};
use crate::state::perp_market::PerpMarket;
use crate::constants::MAX_POSITIONS;
use crate::state::trader_account::{trader_wf, Position, PositionView, TraderAccount, TraderView};
use crate::validation::loaders::{
    check_global_state_key, check_perp_market_key, check_trader_account_key, global_state_seeds, is_pda_of,
    perp_market_seeds, trader_account_seeds,
};

verus! {

/// The keys of the accounts a trading instruction was given, with the
/// program's id; each must be the PDA the router derives for it.
#[derive(Copy, Clone, Debug)]
pub struct OpenCloseKeys {
    pub program_id: Pubkey,
    pub trader_account: Pubkey,
    pub global_state: Pubkey,
    pub perp_market: Pubkey,
}

/// Instruction parameters of DirectOpenPosition.
pub struct DirectOpenPositionParams {
    pub size: i64,
    pub mark_price: u64,
    pub margin: u64,
}

/// `a − b`, saturating at zero.
pub open spec fn sat_sub(a: int, b: int) -> int {
    if a >= b { a - b } else { 0 }
}

/// The trader account after [`open_into_position`].
pub open spec fn spec_open_into(
    v: TraderView,
    market: Seq<u8>,
    added_size: i64,
    price: u64,
    margin: u64,
    a: i128,
    epoch: u64,
    funding_index: Seq<u8>,
) -> Result<TraderView, ProgramError> {
    let v0 = TraderView { collateral: sat_sub(v.collateral as int, margin as int) as u64, ..v };
    match spec_position_slot(v0, market) {
        Err(e) => Err(e),
        Ok((v1, i)) => {
            let pos = v1.positions[i];
            let new_margin = pos.margin_locked + margin;
            let new_size = pos.size_stored + added_size;
            if new_margin > u64::MAX {
                Err(ProgramError::Custom(PerpRouterError::MathOverflow))
            } else if !(i64::MIN <= new_size <= i64::MAX) {
                Err(ProgramError::Custom(PerpRouterError::MathOverflow))
            } else if spec_effective_size(new_size as i64, a) is Err {
                Err(ProgramError::Custom(PerpRouterError::SideIndexOverflow))
            } else {
                Ok(TraderView {
                    positions: v1.positions.update(i, PositionView {
                        entry_price: vwap(abs_int(pos.size_stored as int), pos.entry_price as int,
                            abs_int(added_size as int), price as int) as u64,
                        margin_locked: new_margin as u64,
                        size_stored: new_size as i64,
                        last_epoch_seen: epoch,
                        entry_funding_index: funding_index,
                        ..pos
                    }),
                    ..v1
                })
            }
        },
    }
}

/// Lock `margin` from collateral (saturating) into the position for
/// `market`, allocating a slot if needed, and add `added_size` at `price`
/// to it: the entry becomes the size-weighted average price, the entry
/// funding index and epoch are refreshed. The new size must have an
/// effective size under A. On error the account is unchanged.
pub fn open_into_position(
    t: &mut TraderAccount,
    market: &Pubkey,
    added_size: i64,
    price: u64,
    margin: u64,
    a: i128,
    epoch: u64,
    funding_index: [u8; 16],
) -> (r: Result<(), ProgramError>)
    requires
        trader_wf(*old(t)),
    ensures
        match spec_open_into(old(t)@, market@, added_size, price, margin, a, epoch, funding_index@) {
            Ok(v) => r is Ok && final(t)@ == v,
            Err(e) => r == Err::<(), ProgramError>(e) && *final(t) == *old(t),
        },
        trader_wf(*final(t)),
{
    let mut w = *t;
    w.collateral = w.collateral.saturating_sub(margin);
    let ghost v0 = w@;
    let slot = match position_slot(&mut w, market) {
        Ok(i) => i,
        Err(e) => { return Err(e); },
    };
    let ghost v1 = w@;
    let mut pos = w.positions[slot];
    assert(pos@ == v1.positions[slot as int]);
    let old_abs: u128 = abs_i64(pos.size_stored) as u128;
    let add_abs: u128 = abs_i64(added_size) as u128;
    let blended: u64 = if old_abs == 0 {
        price
    } else {
        proof {
            crate::instructions::place_order_perp::lemma_vwap_bounds(
                old_abs as int, pos.entry_price as int, add_abs as int, price as int);
        }
        let num: u128 = old_abs * (pos.entry_price as u128) + add_abs * (price as u128);
        let den: u128 = old_abs + add_abs;
        (num / den) as u64
    };
    let new_margin = match pos.margin_locked.checked_add(margin) {
        Some(m) => m,
        None => { return Err(ProgramError::Custom(PerpRouterError::MathOverflow)); },
    };
    let new_size = match pos.size_stored.checked_add(added_size) {
        Some(s) => s,
        None => { return Err(ProgramError::Custom(PerpRouterError::MathOverflow)); },
    };
    match effective_size(new_size, a) {
        Ok(_) => {},
        Err(_) => { return Err(ProgramError::Custom(PerpRouterError::SideIndexOverflow)); },
    }
    pos.entry_price = blended;
    pos.margin_locked = new_margin;
    pos.size_stored = new_size;
    pos.last_epoch_seen = epoch;
    pos.entry_funding_index = funding_index;
    w.positions[slot] = pos;
    assert(w.positions@.map_values(|q: Position| q@) =~= v1.positions.update(slot as int, pos@));
    *t = w;
    Ok(())
}

/// `margin × max_leverage_bps / 10_000`: the largest notional a margin
/// supports.
pub open spec fn max_notional(margin: u64, max_leverage_bps: u32) -> int {
    (margin * max_leverage_bps) / 10_000
}

/// Outcome of DirectOpenPosition: the trader account, the market's new
/// open interest and its new last oracle price.
pub open spec fn spec_direct_open(
    v: TraderView,
    m: PerpMarket,
    g: GlobalState,
    signer: Seq<u8>,
    keys: OpenCloseKeys,
    p: DirectOpenPositionParams,
    current_slot: u64,
) -> Result<(TraderView, int, u64), ProgramError> {
    let market_key = keys.perp_market@;
    if !(p.size != 0 && p.margin > 0) {
        Err(ProgramError::InvalidInstructionData)
    } else if !is_pda_of(keys.global_state@, global_state_seeds(), keys.program_id) {
        Err(ProgramError::Custom(PerpRouterError::InvalidPda))
    } else if g.recovery_state != RECOVERY_NORMAL {
        Err(ProgramError::Custom(PerpRouterError::RecoveryDrainOnly))
    } else if !is_pda_of(market_key, perp_market_seeds(m.phoenix_market@), keys.program_id) {
        Err(ProgramError::Custom(PerpRouterError::InvalidPda))
    } else {
        let dt = sat_sub(current_slot as int, m.last_oracle_slot as int) as u64;
        match spec_safe_oracle_read(p.mark_price, m.last_oracle_price, dt, m.max_bps_per_slot) {
            Err(e) => Err(ProgramError::Custom(e)),
            Ok(clamped) => if !is_pda_of(keys.trader_account@, trader_account_seeds(v.owner), keys.program_id) {
                Err(ProgramError::Custom(PerpRouterError::InvalidPda))
            } else if v.owner != signer {
                Err(ProgramError::Custom(PerpRouterError::InvalidAuthority))
            } else if v.collateral < p.margin {
                Err(ProgramError::Custom(PerpRouterError::InsufficientCollateral))
            } else if abs_int(p.size as int) * clamped > max_notional(p.margin, m.max_leverage_bps) {
                Err(ProgramError::Custom(PerpRouterError::LeverageExceeded))
            } else {
                match spec_open_into(v, market_key, p.size, clamped, p.margin, g.spec_a() as i128, g.epoch, m.funding_index@) {
                    Err(e) => Err(e),
                    Ok(v2) => if !crate::risk::side_index::fits_i128(m.spec_open_interest() + p.size) {
                        Err(ProgramError::Custom(PerpRouterError::SideIndexOverflow))
                    } else {
                        Ok((v2, m.spec_open_interest() + p.size, clamped))
                    },
                }
            },
        }
    }
}

/// Open (or add to) a synthetic position at the envelope-clamped mark
/// price. Requires the recovery state to allow opens, the account to
/// belong to the signer, enough free collateral for `margin`, and the
/// notional `|size| × price` within `margin × max_leverage_bps / 10_000`.
/// The market's open interest grows by `size` and its last oracle
/// price/slot become the clamped price and `current_slot`. On error
/// nothing changes.
pub fn process(
    t: &mut TraderAccount,
    m: &mut PerpMarket,
    g: &GlobalState,
    signer: &Pubkey,
    keys: &OpenCloseKeys,
    p: &DirectOpenPositionParams,
    current_slot: u64,
) -> (r: Result<(), ProgramError>)
    requires
        trader_wf(*old(t)),
    ensures
        match spec_direct_open(old(t)@, *old(m), *g, signer@, *keys, *p, current_slot) {
            Ok((v, oi, price)) => {
                &&& r is Ok
                &&& final(t)@ == v
                &&& final(m).spec_open_interest() == oi
                &&& *final(m) == (PerpMarket {
                    open_interest: final(m).open_interest,
                    last_oracle_price: price,
                    last_oracle_slot: current_slot,
                    ..*old(m)
                })
            },
            Err(e) => r == Err::<(), ProgramError>(e) && *final(t) == *old(t) && *final(m) == *old(m),
        },
        trader_wf(*final(t)),
{
    let market_key = &keys.perp_market;
    if !(p.size != 0 && p.margin > 0) {
        return Err(ProgramError::InvalidInstructionData);
    }
    match check_global_state_key(&keys.program_id, &keys.global_state) {
        Ok(()) => {},
        Err(e) => { return Err(e); },
    }
    if !opens_allowed(g.recovery_state) {
        return Err(ProgramError::Custom(PerpRouterError::RecoveryDrainOnly));
    }
    match check_perp_market_key(&keys.program_id, &m.phoenix_market, market_key) {
        Ok(()) => {},
        Err(e) => { return Err(e); },
    }
    let dt = current_slot.saturating_sub(m.last_oracle_slot);
    let clamped = match safe_oracle_read(p.mark_price, m.last_oracle_price, dt, m.max_bps_per_slot) {
        Ok(c) => c,
        Err(e) => { return Err(ProgramError::Custom(e)); },
    };
    match check_trader_account_key(&keys.program_id, &t.owner, &keys.trader_account) {
        Ok(()) => {},
        Err(e) => { return Err(e); },
    }
    if !key_eq(&t.owner, signer) {
        return Err(ProgramError::Custom(PerpRouterError::InvalidAuthority));
    }
    if t.collateral < p.margin {
        return Err(ProgramError::Custom(PerpRouterError::InsufficientCollateral));
    }
    proof {
        assert(0 <= abs_int(p.size as int) * clamped <= u128::MAX) by (nonlinear_arith)
            requires 0 <= abs_int(p.size as int) <= 0x8000_0000_0000_0000int, 0 <= clamped <= u64::MAX;
        assert(0 <= p.margin * m.max_leverage_bps <= u128::MAX) by (nonlinear_arith)
            requires 0 <= p.margin <= u64::MAX, 0 <= m.max_leverage_bps <= u32::MAX;
    }
    let notional: u128 = (abs_i64(p.size) as u128) * (clamped as u128);
    let cap: u128 = ((p.margin as u128) * (m.max_leverage_bps as u128)) / 10_000;
    if notional > cap {
        return Err(ProgramError::Custom(PerpRouterError::LeverageExceeded));
    }
    let mut w = *t;
    match open_into_position(&mut w, market_key, p.size, clamped, p.margin, g.get_a(), g.epoch, m.funding_index) {
        Ok(()) => {},
        Err(e) => { return Err(e); },
    }
    let new_oi = match m.get_open_interest().checked_add(p.size as i128) {
        Some(o) => o,
        None => { return Err(ProgramError::Custom(PerpRouterError::SideIndexOverflow)); },
    };
    *t = w;
    m.set_open_interest(new_oi);
    m.last_oracle_price = clamped;
    m.last_oracle_slot = current_slot;
    Ok(())
}

/// Adding `added_size` at `price` with `margin`: the margin comes out of
/// collateral (down to zero at most) into the position, the size grows
/// by `added_size`, and the entry price becomes the size-weighted average
/// `(|n| × entry + |added| × price) / (|n| + |added|)`, rounded down, of
/// the old size `n` (nonzero) and the added lots; a position with no size
/// (an existing empty one or a fresh slot) takes `price` as its entry.
pub proof fn lemma_open_into_weights_entry(
    v: TraderView,
    market: Seq<u8>,
    added_size: i64,
    price: u64,
    margin: u64,
    a: i128,
    epoch: u64,
    funding_index: Seq<u8>,
)
    requires
        v.positions.len() == MAX_POSITIONS,
        v.positions_len <= MAX_POSITIONS,
        spec_open_into(v, market, added_size, price, margin, a, epoch, funding_index) is Ok,
    ensures
        ({
            let w = spec_open_into(v, market, added_size, price, margin, a, epoch, funding_index)->Ok_0;
            let i = find_position(v.positions.take(v.positions_len as int), market);
            let slot = if i >= 0 { i } else { v.positions_len as int };
            let n: int = if i >= 0 { v.positions[i].size_stored as int } else { 0 };
            let entry: int = if i >= 0 { v.positions[i].entry_price as int } else { 0 };
            let locked: int = if i >= 0 { v.positions[i].margin_locked as int } else { 0 };
            let q = w.positions[slot];
            &&& w.collateral == (if v.collateral >= margin { v.collateral - margin } else { 0 })
            &&& q.market == market
            &&& q.size_stored == n + added_size
            &&& q.margin_locked == locked + margin
            &&& n != 0 ==> q.entry_price == (abs_int(n) * entry + abs_int(added_size as int) * price)
                / (abs_int(n) + abs_int(added_size as int))
            &&& n == 0 ==> q.entry_price == price
            &&& w.positions_len == (if i >= 0 { v.positions_len as int } else { v.positions_len + 1 })
        }),
{
    let v0 = TraderView { collateral: sat_sub(v.collateral as int, margin as int) as u64, ..v };
    assert(v0.positions == v.positions && v0.positions_len == v.positions_len);
    let i = find_position(v.positions.take(v.positions_len as int), market);
    crate::instructions::place_order_perp::lemma_find_position_bounds(v.positions.take(v.positions_len as int), market);
    if i >= 0 {
        let pos = v.positions[i];
        if pos.size_stored != 0 {
            lemma_vwap_bounds(abs_int(pos.size_stored as int), pos.entry_price as int,
                abs_int(added_size as int), price as int);
        }
    }
}

/// The leverage cap of a direct open: an accepted open has notional
/// `|size| × price` (at the clamped price it returns) with
/// `10_000 × notional ≤ margin × max_leverage_bps`, collateral covering the
/// margin and opens allowed; a refusal with `LeverageExceeded` means the
/// notional at the clamped price is above that cap.
pub proof fn lemma_direct_open_leverage_cap(
    v: TraderView,
    m: PerpMarket,
    g: GlobalState,
    signer: Seq<u8>,
    keys: OpenCloseKeys,
    p: DirectOpenPositionParams,
    current_slot: u64,
)
    ensures
        spec_direct_open(v, m, g, signer, keys, p, current_slot) matches Ok((_w, _oi, clamped)) ==> {
            &&& abs_int(p.size as int) * clamped * 10_000 <= p.margin * m.max_leverage_bps
            &&& v.collateral >= p.margin
            &&& g.recovery_state == RECOVERY_NORMAL
        },
        spec_direct_open(v, m, g, signer, keys, p, current_slot)
            == Err::<(TraderView, int, u64), ProgramError>(ProgramError::Custom(PerpRouterError::LeverageExceeded))
            ==> ({
                let dt = sat_sub(current_slot as int, m.last_oracle_slot as int) as u64;
                spec_safe_oracle_read(p.mark_price, m.last_oracle_price, dt, m.max_bps_per_slot) matches Ok(clamped)
                    && abs_int(p.size as int) * clamped * 10_000 > p.margin * m.max_leverage_bps
            }),
{
    let dt = sat_sub(current_slot as int, m.last_oracle_slot as int) as u64;
    if let Ok(clamped) = spec_safe_oracle_read(p.mark_price, m.last_oracle_price, dt, m.max_bps_per_slot) {
        let x = p.margin * m.max_leverage_bps;
        let a = abs_int(p.size as int);
        let s = a * clamped;
        assert(s >= 0) by (nonlinear_arith) requires a >= 0, clamped >= 0, s == a * clamped;
        assert((s <= x / 10_000) == (s * 10_000 <= x)) by (nonlinear_arith) requires 0 <= s, 0 <= x;
    }
}

} // verus!
