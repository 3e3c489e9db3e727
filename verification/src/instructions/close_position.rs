//! ClosePosition — a long closed by selling its base on Phoenix with a
//! take-only swap. Cash flow = quote received − locked margin − funding;
//! the margin is refunded, a positive cash flow goes to the PnL reserve,
//! a negative one is charged against collateral.

use vstd::prelude::*;

use crate::error::{PerpRouterError, ProgramError};
use crate::instructions::direct_close_position::{book_pnl, lemma_book_pnl, mature_slot_of, spec_book_pnl};
use crate::instructions::direct_open_position::sat_sub;
use crate::instructions::place_order_perp::{find_live_position, find_position, remove_position, spec_compact};
use crate::risk::envelope::{safe_oracle_read, spec_safe_oracle_read};
use crate::risk::side_index::{
    effective_size, fits_i128, position_funding_owed, spec_effective_size, spec_position_funding_owed,
};
use crate::state::bytes::{i128_from_le_bytes, key_eq, le_i128, Pubkey};
use crate::state::global::GlobalState;
use crate::state::perp_market::PerpMarket;
use crate::state::trader_account::{trader_wf, TraderAccount, TraderView, MAX_RESERVE_ENTRIES};
use crate::instructions::open_position::{check_vaults, spec_check_vaults, SwapKeys};
use crate::validation::loaders::{
    check_global_state_key, check_perp_authority_key, check_perp_market_key, check_trader_account_key,
    global_state_seeds, is_pda_of, perp_authority_seeds, perp_market_seeds, trader_account_seeds,
};

verus! {

/// Instruction parameters of ClosePosition.
pub struct ClosePositionParams {
    /// Slippage floor: the swap must return at least this much quote.
    pub min_quote_lots_to_receive: u64,
    /// Client-supplied mark price (envelope-clamped).
    pub mark_price: u64,
    /// Opaque id forwarded to Phoenix.
    pub client_order_id: u128,
}

/// What the close needs from before the swap.
pub struct ClosePlan {
    /// Base lots to sell: the whole long position.
    pub size_to_sell: u64,
    /// Margin locked in the position.
    pub margin_locked: u64,
    /// Funding index at entry.
    pub entry_funding: i128,
    /// Envelope-clamped mark price.
    pub clamped: u64,
    /// The market's current funding index.
    pub current_funding: i128,
}

/// What [`prepare`] returns.
pub open spec fn spec_prepare(
    v: TraderView,
    m: PerpMarket,
    signer: Seq<u8>,
    k: SwapKeys,
    p: ClosePositionParams,
    current_slot: u64,
) -> Result<ClosePlan, ProgramError> {
    let dt = sat_sub(current_slot as int, m.last_oracle_slot as int) as u64;
    if !is_pda_of(k.perp_authority@, perp_authority_seeds(), k.program_id) {
        Err(ProgramError::Custom(PerpRouterError::InvalidPda))
    } else if !is_pda_of(k.perp_market@, perp_market_seeds(m.phoenix_market@), k.program_id) {
        Err(ProgramError::Custom(PerpRouterError::InvalidPda))
    } else { match spec_safe_oracle_read(p.mark_price, m.last_oracle_price, dt, m.max_bps_per_slot) {
        Err(e) => Err(ProgramError::Custom(e)),
        Ok(clamped) => {
            let i = find_position(v.positions.take(v.positions_len as int), k.perp_market@);
            if spec_check_vaults(k, m) is Err {
                Err(spec_check_vaults(k, m)->Err_0)
            } else if v.owner != signer {
                Err(ProgramError::Custom(PerpRouterError::InvalidAuthority))
            } else if i < 0 {
                Err(ProgramError::Custom(PerpRouterError::NotInitialized))
            } else if v.positions[i].size_stored <= 0 {
                Err(ProgramError::InvalidArgument)
            } else {
                Ok(ClosePlan {
                    size_to_sell: v.positions[i].size_stored as u64,
                    margin_locked: v.positions[i].margin_locked,
                    entry_funding: le_i128(v.positions[i].entry_funding_index) as i128,
                    clamped,
                    current_funding: m.spec_funding_index() as i128,
                })
            }
        },
    }
    }
}

/// Checks before the swap: the account belongs to the signer and holds a
/// long position on this market (only longs close through Phoenix).
pub fn prepare(
    t: &TraderAccount,
    m: &PerpMarket,
    signer: &Pubkey,
    k: &SwapKeys,
    p: &ClosePositionParams,
    current_slot: u64,
) -> (r: Result<ClosePlan, ProgramError>)
    requires
        trader_wf(*t),
    ensures
        r == spec_prepare(t@, *m, signer@, *k, *p, current_slot),
{
    let market_key = &k.perp_market;
    match check_perp_authority_key(&k.program_id, &k.perp_authority) {
        Ok(()) => {},
        Err(e) => { return Err(e); },
    }
    match check_perp_market_key(&k.program_id, &m.phoenix_market, market_key) {
        Ok(()) => {},
        Err(e) => { return Err(e); },
    }
    let dt = current_slot.saturating_sub(m.last_oracle_slot);
    let clamped = match safe_oracle_read(p.mark_price, m.last_oracle_price, dt, m.max_bps_per_slot) {
        Ok(c) => c,
        Err(e) => { return Err(ProgramError::Custom(e)); },
    };
    match check_vaults(k, m) {
        Ok(()) => {},
        Err(e) => { return Err(e); },
    }
    let current_funding = m.get_funding_index();
    if !key_eq(&t.owner, signer) {
        return Err(ProgramError::Custom(PerpRouterError::InvalidAuthority));
    }
    let i = match find_live_position(t, market_key) {
        Some(i) => i,
        None => { return Err(ProgramError::Custom(PerpRouterError::NotInitialized)); },
    };
    let pos = t.positions[i];
    assert(pos@ == t@.positions[i as int]);
    if pos.size_stored <= 0 {
        return Err(ProgramError::InvalidArgument);
    }
    Ok(ClosePlan {
        size_to_sell: pos.size_stored as u64,
        margin_locked: pos.margin_locked,
        entry_funding: i128_from_le_bytes(pos.entry_funding_index),
        clamped,
        current_funding,
    })
}

/// The router's base vault must hold the base to sell.
pub fn check_base_vault(base_before: u64, size_to_sell: u64) -> (r: Result<(), ProgramError>)
    ensures
        r == (if base_before >= size_to_sell {
            Ok::<(), ProgramError>(())
        } else {
            Err(ProgramError::Custom(PerpRouterError::InsufficientCollateral))
        }),
{
    if base_before >= size_to_sell {
        Ok(())
    } else {
        Err(ProgramError::Custom(PerpRouterError::InsufficientCollateral))
    }
}

/// Outcome of the settlement: the trader account and the market's new
/// open interest.
pub open spec fn spec_settle(
    v: TraderView,
    m: PerpMarket,
    g: GlobalState,
    k: SwapKeys,
    p: ClosePositionParams,
    plan: ClosePlan,
    quote_before: u64,
    quote_after: u64,
    base_before: u64,
    base_after: u64,
    current_slot: u64,
) -> Result<(TraderView, int), ProgramError> {
    if quote_before > quote_after || base_after > base_before {
        Err(ProgramError::Custom(PerpRouterError::MathOverflow))
    } else if quote_after - quote_before < p.min_quote_lots_to_receive {
        Err(ProgramError::Custom(PerpRouterError::LeverageExceeded))
    } else if !is_pda_of(k.global_state@, global_state_seeds(), k.program_id) {
        Err(ProgramError::Custom(PerpRouterError::InvalidPda))
    } else {
        match spec_effective_size(plan.size_to_sell as i64, g.spec_a() as i128) {
            Err(e) => Err(ProgramError::Custom(e)),
            Ok(eff) => match spec_position_funding_owed(eff, plan.current_funding, plan.entry_funding) {
                Err(e) => Err(ProgramError::Custom(e)),
                Ok(funding) => {
                    let cash_in = (quote_after - quote_before) - plan.margin_locked - funding;
                    let i = find_position(v.positions.take(v.positions_len as int), k.perp_market@);
                    if !fits_i128(cash_in) {
                        Err(ProgramError::Custom(PerpRouterError::MathOverflow))
                    } else if !is_pda_of(k.trader_account@, trader_account_seeds(v.owner), k.program_id) {
                        Err(ProgramError::Custom(PerpRouterError::InvalidPda))
                    } else if v.collateral + plan.margin_locked > u64::MAX {
                        Err(ProgramError::Custom(PerpRouterError::MathOverflow))
                    } else if i < 0 {
                        Err(ProgramError::Custom(PerpRouterError::NotInitialized))
                    } else if !fits_i128(m.spec_open_interest() - plan.size_to_sell) {
                        Err(ProgramError::Custom(PerpRouterError::SideIndexOverflow))
                    } else {
                        let refunded = TraderView { collateral: (v.collateral + plan.margin_locked) as u64, ..v };
                        Ok((
                            spec_compact(spec_book_pnl(refunded, cash_in, current_slot), i),
                            m.spec_open_interest() - plan.size_to_sell,
                        ))
                    }
                },
            },
        }
    }
}

/// Settle the swap from the vault balances around it: quote received and
/// base sold must be non-negative and the quote must meet the slippage
/// floor; the margin is refunded, the cash flow booked as PnL, the
/// position dropped, and the market's open interest reduced by the size
/// sold. The market's last oracle price/slot become the clamped mark and
/// `current_slot`. On error nothing changes.
pub fn settle(
    t: &mut TraderAccount,
    m: &mut PerpMarket,
    g: &GlobalState,
    k: &SwapKeys,
    p: &ClosePositionParams,
    plan: &ClosePlan,
    quote_before: u64,
    quote_after: u64,
    base_before: u64,
    base_after: u64,
    current_slot: u64,
) -> (r: Result<(), ProgramError>)
    requires
        trader_wf(*old(t)),
    ensures
        match spec_settle(old(t)@, *old(m), *g, *k, *p, *plan, quote_before, quote_after,
            base_before, base_after, current_slot) {
            Ok((v, oi)) => {
                &&& r is Ok
                &&& final(t)@ == v
                &&& final(m).spec_open_interest() == oi
                &&& *final(m) == (PerpMarket {
                    open_interest: final(m).open_interest,
                    last_oracle_price: plan.clamped,
                    last_oracle_slot: current_slot,
                    ..*old(m)
                })
            },
            Err(e) => r == Err::<(), ProgramError>(e) && *final(t) == *old(t) && *final(m) == *old(m),
        },
        trader_wf(*final(t)),
{
    let quote_received = match quote_after.checked_sub(quote_before) {
        Some(q) => q,
        None => { return Err(ProgramError::Custom(PerpRouterError::MathOverflow)); },
    };
    let _base_sold = match base_before.checked_sub(base_after) {
        Some(b) => b,
        None => { return Err(ProgramError::Custom(PerpRouterError::MathOverflow)); },
    };
    if quote_received < p.min_quote_lots_to_receive {
        return Err(ProgramError::Custom(PerpRouterError::LeverageExceeded));
    }
    match check_global_state_key(&k.program_id, &k.global_state) {
        Ok(()) => {},
        Err(e) => { return Err(e); },
    }
    let market_key = &k.perp_market;
    let a = g.get_a();
    let eff = match effective_size(plan.size_to_sell as i64, a) {
        Ok(e) => e,
        Err(e) => { return Err(ProgramError::Custom(e)); },
    };
    let funding = match position_funding_owed(eff, plan.current_funding, plan.entry_funding) {
        Ok(f) => f,
        Err(e) => { return Err(ProgramError::Custom(e)); },
    };
    let cash_in = match ((quote_received as i128) - (plan.margin_locked as i128)).checked_sub(funding) {
        Some(c) => c,
        None => { return Err(ProgramError::Custom(PerpRouterError::MathOverflow)); },
    };
    match check_trader_account_key(&k.program_id, &t.owner, &k.trader_account) {
        Ok(()) => {},
        Err(e) => { return Err(e); },
    }
    let mut w = *t;
    w.collateral = match w.collateral.checked_add(plan.margin_locked) {
        Some(c) => c,
        None => { return Err(ProgramError::Custom(PerpRouterError::MathOverflow)); },
    };
    book_pnl(&mut w, cash_in, current_slot);
    let i = match find_live_position(&w, market_key) {
        Some(i) => i,
        None => { return Err(ProgramError::Custom(PerpRouterError::NotInitialized)); },
    };
    let new_oi = match m.get_open_interest().checked_sub(plan.size_to_sell as i128) {
        Some(o) => o,
        None => { return Err(ProgramError::Custom(PerpRouterError::SideIndexOverflow)); },
    };
    remove_position(&mut w, i);
    *t = w;
    m.set_open_interest(new_oi);
    m.last_oracle_price = plan.clamped;
    m.last_oracle_slot = current_slot;
    Ok(())
}

/// The settlement conserves value: what the trader gains in collateral
/// plus what enters the PnL reserve is the quote received minus the
/// funding owed `f` (for the effective size `eff` sold). The margin comes
/// back once, as collateral; the reserve gets the rest when positive.
/// When the quote received does not cover margin and funding, the reserve
/// is untouched and collateral moves by `quote − f`, stopping at zero.
pub proof fn lemma_settle_conserves_value(
    v: TraderView,
    m: PerpMarket,
    g: GlobalState,
    k: SwapKeys,
    p: ClosePositionParams,
    plan: ClosePlan,
    quote_before: u64,
    quote_after: u64,
    base_before: u64,
    base_after: u64,
    current_slot: u64,
    eff: i64,
    f: i128,
)
    requires
        v.pnl_reserve.len() == MAX_RESERVE_ENTRIES,
        v.pnl_reserve_len <= MAX_RESERVE_ENTRIES,
        spec_settle(v, m, g, k, p, plan, quote_before, quote_after, base_before, base_after, current_slot) is Ok,
        spec_effective_size(plan.size_to_sell as i64, g.spec_a() as i128) == Ok::<i64, PerpRouterError>(eff),
        spec_position_funding_owed(eff, plan.current_funding, plan.entry_funding) == Ok::<i128, PerpRouterError>(f),
    ensures
        ({
            let (w, oi) = spec_settle(v, m, g, k, p, plan, quote_before, quote_after, base_before, base_after,
                current_slot)->Ok_0;
            let received = quote_after - quote_before;
            let gain = received - plan.margin_locked - f;
            &&& received >= p.min_quote_lots_to_receive
            &&& 0 < gain <= u64::MAX ==> {
                &&& w.collateral == v.collateral + plan.margin_locked
                &&& w.pnl_reserve_len == (if v.pnl_reserve_len < MAX_RESERVE_ENTRIES { v.pnl_reserve_len + 1 } else { MAX_RESERVE_ENTRIES as int })
                &&& w.pnl_reserve[w.pnl_reserve_len - 1].mature_slot == mature_slot_of(current_slot)
                &&& (w.collateral - v.collateral) + w.pnl_reserve[w.pnl_reserve_len - 1].amount == received - f
            }
            &&& -(u64::MAX as int) <= gain <= 0 ==> {
                &&& w.pnl_reserve == v.pnl_reserve
                &&& w.pnl_reserve_len == v.pnl_reserve_len
                &&& w.collateral == (if v.collateral + received - f >= 0 { v.collateral + received - f } else { 0 })
            }
            &&& oi == m.spec_open_interest() - plan.size_to_sell
            &&& w.positions_len == v.positions_len - 1
        }),
{
    let received = quote_after - quote_before;
    let gain = received - plan.margin_locked - f;
    let refunded = TraderView { collateral: (v.collateral + plan.margin_locked) as u64, ..v };
    lemma_book_pnl(refunded, gain, current_slot);
}

} // verus!
