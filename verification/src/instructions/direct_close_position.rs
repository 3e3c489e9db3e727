//! DirectClosePosition — oracle-priced synthetic close (no matching
//! engine). PnL = effective_size × (clamped − entry) − funding; the locked
//! margin is refunded, a gain goes to the PnL reserve (warmup), a loss is
//! charged against collateral.

use vstd::prelude::*;

use crate::instructions::direct_open_position::OpenCloseKeys;
use crate::validation::loaders::{
    check_global_state_key, check_perp_market_key, check_trader_account_key, global_state_seeds, is_pda_of,
    perp_market_seeds, trader_account_seeds,
};

use crate::constants::WARMUP_SLOTS;
use crate::error::{PerpRouterError, ProgramError};
use crate::instructions::direct_open_position::sat_sub;
use crate::instructions::place_order_perp::{find_live_position, find_position, remove_position, spec_compact};
use crate::risk::envelope::{safe_oracle_read, spec_safe_oracle_read};
use crate::risk::side_index::{
    effective_size, fits_i128, position_funding_owed, spec_effective_size, spec_position_funding_owed,
};
use crate::risk::warmup::{push_reserve, spec_push_reserve};
use crate::state::bytes::{i128_from_le_bytes, key_eq, le_i128, Pubkey};
use crate::state::global::GlobalState;
use crate::state::perp_market::PerpMarket;
use crate::state::trader_account::{trader_wf, ReserveEntry, TraderAccount, TraderView, MAX_RESERVE_ENTRIES};

verus! {

/// Instruction parameters of DirectClosePosition.
pub struct DirectClosePositionParams {
    pub mark_price: u64,
}

/// `current_slot + WARMUP_SLOTS`, saturating.
pub open spec fn mature_slot_of(current_slot: u64) -> u64 {
    if current_slot + WARMUP_SLOTS > u64::MAX { u64::MAX } else { (current_slot + WARMUP_SLOTS) as u64 }
}

/// Book realized PnL on an account: a gain enters the PnL reserve with
/// warmup, a loss is charged against collateral (saturating at zero).
pub open spec fn spec_book_pnl(v: TraderView, pnl: int, current_slot: u64) -> TraderView {
    if pnl > 0 {
        let pushed = spec_push_reserve(v.pnl_reserve, v.pnl_reserve_len, pnl as u64, mature_slot_of(current_slot));
        TraderView { pnl_reserve: pushed.0, pnl_reserve_len: pushed.1, ..v }
    } else if pnl < 0 {
        TraderView { collateral: sat_sub(v.collateral as int, ((-pnl) as u64) as int) as u64, ..v }
    } else {
        v
    }
}

/// Book realized PnL (see [`spec_book_pnl`]).
pub fn book_pnl(t: &mut TraderAccount, pnl: i128, current_slot: u64)
    requires
        trader_wf(*old(t)),
    ensures
        final(t)@ == spec_book_pnl(old(t)@, pnl as int, current_slot),
        trader_wf(*final(t)),
{
    if pnl > 0 {
        let _ = push_reserve(
            &mut t.pnl_reserve,
            &mut t.pnl_reserve_len,
            pnl as u64,
            current_slot.saturating_add(WARMUP_SLOTS),
        );
    } else if pnl < 0 {
        let loss: u64 = if pnl == i128::MIN {
            proof {
                assert(0x8000_0000_0000_0000_0000_0000_0000_0000u128 as u64 == 0) by (bit_vector);
                assert((-(pnl as int)) == 0x8000_0000_0000_0000_0000_0000_0000_0000u128);
            }
            0
        } else {
            (0i128 - pnl) as u64
        };
        t.collateral = t.collateral.saturating_sub(loss);
    }
}

/// Outcome of DirectClosePosition: the trader account, the market's new
/// open interest and its new last oracle price.
pub open spec fn spec_direct_close(
    v: TraderView,
    m: PerpMarket,
    g: GlobalState,
    signer: Seq<u8>,
    keys: OpenCloseKeys,
    mark_price: u64,
    current_slot: u64,
) -> Result<(TraderView, int, u64), ProgramError> {
    let market_key = keys.perp_market@;
    let dt = sat_sub(current_slot as int, m.last_oracle_slot as int) as u64;
    if !is_pda_of(market_key, perp_market_seeds(m.phoenix_market@), keys.program_id) {
        Err(ProgramError::Custom(PerpRouterError::InvalidPda))
    } else { match spec_safe_oracle_read(mark_price, m.last_oracle_price, dt, m.max_bps_per_slot) {
        Err(e) => Err(ProgramError::Custom(e)),
        Ok(clamped) => {
            let i = find_position(v.positions.take(v.positions_len as int), market_key);
            if !is_pda_of(keys.global_state@, global_state_seeds(), keys.program_id) {
                Err(ProgramError::Custom(PerpRouterError::InvalidPda))
            } else if !is_pda_of(keys.trader_account@, trader_account_seeds(v.owner), keys.program_id) {
                Err(ProgramError::Custom(PerpRouterError::InvalidPda))
            } else if v.owner != signer {
                Err(ProgramError::Custom(PerpRouterError::InvalidAuthority))
            } else if i < 0 {
                Err(ProgramError::Custom(PerpRouterError::NotInitialized))
            } else {
                let pos = v.positions[i];
                match spec_effective_size(pos.size_stored, g.spec_a() as i128) {
                    Err(e) => Err(ProgramError::Custom(e)),
                    Ok(eff) => match spec_position_funding_owed(eff, m.spec_funding_index() as i128,
                        le_i128(pos.entry_funding_index) as i128) {
                        Err(e) => Err(ProgramError::Custom(e)),
                        Ok(funding) => {
                            let gross = eff * (clamped - pos.entry_price);
                            let pnl = gross - funding;
                            if v.collateral + pos.margin_locked > u64::MAX {
                                Err(ProgramError::Custom(PerpRouterError::MathOverflow))
                            } else if !fits_i128(pnl) {
                                Err(ProgramError::Custom(PerpRouterError::MathOverflow))
                            } else if !fits_i128(m.spec_open_interest() - pos.size_stored) {
                                Err(ProgramError::Custom(PerpRouterError::SideIndexOverflow))
                            } else {
                                let refunded = TraderView { collateral: (v.collateral + pos.margin_locked) as u64, ..v };
                                Ok((
                                    spec_compact(spec_book_pnl(refunded, pnl, current_slot), i),
                                    m.spec_open_interest() - pos.size_stored,
                                    clamped,
                                ))
                            }
                        },
                    },
                }
            }
        },
    }
    }
}

/// Close the trader's position on this market at the envelope-clamped
/// mark: refund its locked margin, book `effective × (price − entry) −
/// funding` as PnL, drop the position and reduce the market's open
/// interest by its stored size. A PnL that does not fit in `i128` fails
/// with `MathOverflow`. On error nothing changes.
pub fn process(
    t: &mut TraderAccount,
    m: &mut PerpMarket,
    g: &GlobalState,
    signer: &Pubkey,
    keys: &OpenCloseKeys,
    p: &DirectClosePositionParams,
    current_slot: u64,
) -> (r: Result<(), ProgramError>)
    requires
        trader_wf(*old(t)),
    ensures
        match spec_direct_close(old(t)@, *old(m), *g, signer@, *keys, p.mark_price, current_slot) {
            Ok((v, oi, price)) => {
                &&& r is Ok
                &&& final(t)@ == v
                &&& final(m).spec_open_interest() == oi
                &&& *final(m) == (PerpMarket {
                    open_interest: final(m).open_interest,
                    last_oracle_price: price,
                    last_oracle_slot: current_slot,
                    ..*old(m)
                })
            },
            Err(e) => r == Err::<(), ProgramError>(e) && *final(t) == *old(t) && *final(m) == *old(m),
        },
        trader_wf(*final(t)),
{
    let market_key = &keys.perp_market;
    match check_perp_market_key(&keys.program_id, &m.phoenix_market, market_key) {
        Ok(()) => {},
        Err(e) => { return Err(e); },
    }
    let dt = current_slot.saturating_sub(m.last_oracle_slot);
    let clamped = match safe_oracle_read(p.mark_price, m.last_oracle_price, dt, m.max_bps_per_slot) {
        Ok(c) => c,
        Err(e) => { return Err(ProgramError::Custom(e)); },
    };
    let current_funding = m.get_funding_index();
    match check_global_state_key(&keys.program_id, &keys.global_state) {
        Ok(()) => {},
        Err(e) => { return Err(e); },
    }
    let a = g.get_a();
    match check_trader_account_key(&keys.program_id, &t.owner, &keys.trader_account) {
        Ok(()) => {},
        Err(e) => { return Err(e); },
    }
    if !key_eq(&t.owner, signer) {
        return Err(ProgramError::Custom(PerpRouterError::InvalidAuthority));
    }
    let i = match find_live_position(t, market_key) {
        Some(i) => i,
        None => { return Err(ProgramError::Custom(PerpRouterError::NotInitialized)); },
    };
    let pos = t.positions[i];
    assert(pos@ == t@.positions[i as int]);
    let stored = pos.size_stored;
    let eff = match effective_size(stored, a) {
        Ok(e) => e,
        Err(e) => { return Err(ProgramError::Custom(e)); },
    };
    let entry_f = i128_from_le_bytes(pos.entry_funding_index);
    let funding = match position_funding_owed(eff, current_funding, entry_f) {
        Ok(f) => f,
        Err(e) => { return Err(ProgramError::Custom(e)); },
    };
    let price_diff: i128 = (clamped as i128) - (pos.entry_price as i128);
    proof {
        crate::instructions::place_order_perp::lemma_pnl_fits(price_diff as int, 0);
        assert(crate::instructions::place_order_perp::fits_i128_int(eff * price_diff)) by (nonlinear_arith)
            requires i64::MIN <= eff <= i64::MAX, -(u64::MAX as int) <= price_diff <= u64::MAX;
    }
    let gross: i128 = (eff as i128) * price_diff;
    let mut w = *t;
    w.collateral = match w.collateral.checked_add(pos.margin_locked) {
        Some(c) => c,
        None => { return Err(ProgramError::Custom(PerpRouterError::MathOverflow)); },
    };
    let pnl = match gross.checked_sub(funding) {
        Some(v) => v,
        None => { return Err(ProgramError::Custom(PerpRouterError::MathOverflow)); },
    };
    let new_oi = match m.get_open_interest().checked_sub(stored as i128) {
        Some(o) => o,
        None => { return Err(ProgramError::Custom(PerpRouterError::SideIndexOverflow)); },
    };
    book_pnl(&mut w, pnl, current_slot);
    remove_position(&mut w, i);
    *t = w;
    m.set_open_interest(new_oi);
    m.last_oracle_price = clamped;
    m.last_oracle_slot = current_slot;
    Ok(())
}

/// Booking a gain leaves collateral alone and appends the gain, maturing
/// `WARMUP_SLOTS` later, as the newest reserve entry (the oldest entry
/// is dropped when the reserve was full); booking a loss leaves the
/// reserve alone and takes the loss from collateral, down to zero at
/// most. Nothing else in the account changes.
pub proof fn lemma_book_pnl(v: TraderView, pnl: int, current_slot: u64)
    requires
        v.pnl_reserve.len() == MAX_RESERVE_ENTRIES,
        v.pnl_reserve_len <= MAX_RESERVE_ENTRIES,
    ensures
        ({
            let w = spec_book_pnl(v, pnl, current_slot);
            &&& w == (TraderView { collateral: w.collateral, pnl_reserve: w.pnl_reserve, pnl_reserve_len: w.pnl_reserve_len, ..v })
            &&& 0 < pnl <= u64::MAX ==> {
                &&& w.collateral == v.collateral
                &&& w.pnl_reserve.len() == MAX_RESERVE_ENTRIES
                &&& w.pnl_reserve_len == (if v.pnl_reserve_len < MAX_RESERVE_ENTRIES { v.pnl_reserve_len + 1 } else { MAX_RESERVE_ENTRIES as int })
                &&& w.pnl_reserve[w.pnl_reserve_len - 1] == (ReserveEntry { amount: pnl as u64, mature_slot: mature_slot_of(current_slot) })
            }
            &&& -(u64::MAX as int) <= pnl <= 0 ==> {
                &&& w.pnl_reserve == v.pnl_reserve
                &&& w.pnl_reserve_len == v.pnl_reserve_len
                &&& w.collateral == (if v.collateral + pnl >= 0 { v.collateral + pnl } else { 0 })
            }
        }),
{
}

/// Closing at the oracle mark books, for a position of effective size
/// `eff` and funding owed `f`, exactly `eff × (clamped − entry) − f`:
/// the locked margin returns to collateral, a positive result becomes the
/// newest PnL reserve entry, a negative one is taken from collateral
/// (down to zero). The position leaves the table and the market's open
/// interest falls by its stored size.
pub proof fn lemma_direct_close_books_price_move(
    v: TraderView,
    m: PerpMarket,
    g: GlobalState,
    signer: Seq<u8>,
    keys: OpenCloseKeys,
    mark_price: u64,
    current_slot: u64,
    eff: i64,
    f: i128,
)
    requires
        v.pnl_reserve.len() == MAX_RESERVE_ENTRIES,
        v.pnl_reserve_len <= MAX_RESERVE_ENTRIES,
        spec_direct_close(v, m, g, signer, keys, mark_price, current_slot) is Ok,
        ({
            let i = find_position(v.positions.take(v.positions_len as int), keys.perp_market@);
            &&& 0 <= i < v.positions.len()
            &&& spec_effective_size(v.positions[i].size_stored, g.spec_a() as i128) == Ok::<i64, PerpRouterError>(eff)
            &&& spec_position_funding_owed(eff, m.spec_funding_index() as i128,
                le_i128(v.positions[i].entry_funding_index) as i128) == Ok::<i128, PerpRouterError>(f)
        }),
    ensures
        ({
            let (w, oi, clamped) = spec_direct_close(v, m, g, signer, keys, mark_price, current_slot)->Ok_0;
            let pos = v.positions[find_position(v.positions.take(v.positions_len as int), keys.perp_market@)];
            let pnl = eff * (clamped - pos.entry_price) - f;
            &&& 0 < pnl <= u64::MAX ==> {
                &&& w.collateral == v.collateral + pos.margin_locked
                &&& w.pnl_reserve_len == (if v.pnl_reserve_len < MAX_RESERVE_ENTRIES { v.pnl_reserve_len + 1 } else { MAX_RESERVE_ENTRIES as int })
                &&& w.pnl_reserve[w.pnl_reserve_len - 1] == (ReserveEntry { amount: pnl as u64, mature_slot: mature_slot_of(current_slot) })
            }
            &&& -(u64::MAX as int) <= pnl <= 0 ==> {
                &&& w.pnl_reserve == v.pnl_reserve
                &&& w.pnl_reserve_len == v.pnl_reserve_len
                &&& w.collateral == (if v.collateral + pos.margin_locked + pnl >= 0 { v.collateral + pos.margin_locked + pnl } else { 0 })
            }
            &&& oi == m.spec_open_interest() - pos.size_stored
            &&& w.positions_len == v.positions_len - 1
        }),
{
    let i = find_position(v.positions.take(v.positions_len as int), keys.perp_market@);
    let pos = v.positions[i];
    let (w, oi, clamped) = spec_direct_close(v, m, g, signer, keys, mark_price, current_slot)->Ok_0;
    let pnl = eff * (clamped - pos.entry_price) - f;
    let refunded = TraderView { collateral: (v.collateral + pos.margin_locked) as u64, ..v };
    lemma_book_pnl(refunded, pnl, current_slot);
}

} // verus!
