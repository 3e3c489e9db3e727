//! OpenPosition — a long opened by buying base on Phoenix with a take-only
//! swap. The checks before the swap and the settlement after it are the
//! router's; the swap itself is a cross-program call made by the caller,
//! who reports the vault balances around it.

use vstd::prelude::*;

use crate::error::{PerpRouterError, ProgramError};
use crate::instructions::direct_open_position::{max_notional, open_into_position, sat_sub, spec_open_into};
use crate::risk::envelope::{safe_oracle_read, spec_safe_oracle_read};
use crate::risk::recovery::opens_allowed;
use crate::risk::side_index::fits_i128;
use crate::state::bytes::{key_eq, Pubkey};
use crate::state::global::{GlobalState, RECOVERY_NORMAL};
use crate::state::perp_market::PerpMarket;
use crate::state::trader_account::{trader_wf, TraderAccount, TraderView};
use crate::instructions::request_collateral_deposit::is_vault_of;
use crate::state::vault::find_collateral_vault_address;
use crate::validation::loaders::{
    check_global_state_key, check_perp_authority_key, check_perp_market_key, check_trader_account_key,
    global_state_seeds, is_pda_of, perp_authority_seeds, perp_market_seeds, trader_account_seeds,
};

verus! {

/// Instruction parameters of OpenPosition.
pub struct OpenPositionParams {
    /// Collateral to lock for this position.
    pub margin: u64,
    /// Maximum quote lots the swap may spend.
    pub num_quote_lots_to_spend: u64,
    /// Slippage floor: the swap must fill at least this much base.
    pub min_base_lots_to_receive: u64,
    /// Client-supplied mark price (envelope-clamped).
    pub mark_price: u64,
    /// Opaque id forwarded to Phoenix.
    pub client_order_id: u128,
}

/// The keys of the accounts a swap-backed trade was given, with the
/// program's id.
#[derive(Copy, Clone, Debug)]
pub struct SwapKeys {
    pub program_id: Pubkey,
    pub trader_account: Pubkey,
    pub global_state: Pubkey,
    pub perp_market: Pubkey,
    pub perp_authority: Pubkey,
    pub collateral_vault: Pubkey,
    pub perp_base_vault: Pubkey,
    pub phoenix_market: Pubkey,
    pub phoenix_base_vault: Pubkey,
    pub phoenix_quote_vault: Pubkey,
}

/// The vault accounts must be the market's: Phoenix's base and quote
/// vaults as cached on the market, and the router's vaults (the
/// authority's token accounts) for the quote and base mints.
pub open spec fn spec_check_vaults(k: SwapKeys, m: PerpMarket) -> Result<(), ProgramError> {
    if k.phoenix_base_vault != m.phoenix_base_vault || k.phoenix_quote_vault != m.phoenix_quote_vault {
        Err(ProgramError::Custom(PerpRouterError::InvalidPda))
    } else if !is_vault_of(k.collateral_vault, m.quote_mint, k.program_id) {
        Err(ProgramError::Custom(PerpRouterError::InvalidPda))
    } else if !is_vault_of(k.perp_base_vault, m.base_mint, k.program_id) {
        Err(ProgramError::Custom(PerpRouterError::InvalidPda))
    } else {
        Ok(())
    }
}

/// Check the vault accounts of a swap (see [`spec_check_vaults`]).
pub fn check_vaults(k: &SwapKeys, m: &PerpMarket) -> (r: Result<(), ProgramError>)
    ensures
        r == spec_check_vaults(*k, *m),
{
    if !(key_eq(&k.phoenix_base_vault, &m.phoenix_base_vault) && key_eq(&k.phoenix_quote_vault, &m.phoenix_quote_vault)) {
        return Err(ProgramError::Custom(PerpRouterError::InvalidPda));
    }
    let quote_ok = match find_collateral_vault_address(&m.quote_mint, &k.program_id) {
        Some(v) => key_eq(&v, &k.collateral_vault),
        None => false,
    };
    if !quote_ok {
        return Err(ProgramError::Custom(PerpRouterError::InvalidPda));
    }
    let base_ok = match find_collateral_vault_address(&m.base_mint, &k.program_id) {
        Some(v) => key_eq(&v, &k.perp_base_vault),
        None => false,
    };
    if !base_ok {
        return Err(ProgramError::Custom(PerpRouterError::InvalidPda));
    }
    Ok(())
}

/// What [`prepare`] returns: the clamped mark price.
pub open spec fn spec_prepare(
    v: TraderView,
    m: PerpMarket,
    g: GlobalState,
    signer: Seq<u8>,
    k: SwapKeys,
    p: OpenPositionParams,
    current_slot: u64,
) -> Result<u64, ProgramError> {
    if !(p.margin > 0 && p.num_quote_lots_to_spend > 0) {
        Err(ProgramError::InvalidInstructionData)
    } else if !is_pda_of(k.perp_authority@, perp_authority_seeds(), k.program_id) {
        Err(ProgramError::Custom(PerpRouterError::InvalidPda))
    } else if !is_pda_of(k.global_state@, global_state_seeds(), k.program_id) {
        Err(ProgramError::Custom(PerpRouterError::InvalidPda))
    } else if g.recovery_state != RECOVERY_NORMAL {
        Err(ProgramError::Custom(PerpRouterError::RecoveryDrainOnly))
    } else if !is_pda_of(k.perp_market@, perp_market_seeds(m.phoenix_market@), k.program_id) {
        Err(ProgramError::Custom(PerpRouterError::InvalidPda))
    } else if m.phoenix_market != k.phoenix_market {
        Err(ProgramError::Custom(PerpRouterError::InvalidPda))
    } else {
        let dt = sat_sub(current_slot as int, m.last_oracle_slot as int) as u64;
        match spec_safe_oracle_read(p.mark_price, m.last_oracle_price, dt, m.max_bps_per_slot) {
            Err(e) => Err(ProgramError::Custom(e)),
            Ok(clamped) => match spec_check_vaults(k, m) {
                Err(e) => Err(e),
                Ok(_) => if v.owner != signer {
                    Err(ProgramError::Custom(PerpRouterError::InvalidAuthority))
                } else if v.collateral < p.margin {
                    Err(ProgramError::Custom(PerpRouterError::InsufficientCollateral))
                } else if p.num_quote_lots_to_spend > max_notional(p.margin, m.max_leverage_bps) {
                    Err(ProgramError::Custom(PerpRouterError::LeverageExceeded))
                } else {
                    Ok(clamped)
                },
            },
        }
    }
}

/// Checks before the swap: opens allowed by the recovery state, the
/// account belongs to the signer, collateral covers `margin`, and the
/// quote to spend is within `margin × max_leverage_bps / 10_000`. Returns
/// the envelope-clamped mark price.
pub fn prepare(
    t: &TraderAccount,
    m: &PerpMarket,
    g: &GlobalState,
    signer: &Pubkey,
    k: &SwapKeys,
    p: &OpenPositionParams,
    current_slot: u64,
) -> (r: Result<u64, ProgramError>)
    ensures
        r == spec_prepare(t@, *m, *g, signer@, *k, *p, current_slot),
{
    if !(p.margin > 0 && p.num_quote_lots_to_spend > 0) {
        return Err(ProgramError::InvalidInstructionData);
    }
    match check_perp_authority_key(&k.program_id, &k.perp_authority) {
        Ok(()) => {},
        Err(e) => { return Err(e); },
    }
    match check_global_state_key(&k.program_id, &k.global_state) {
        Ok(()) => {},
        Err(e) => { return Err(e); },
    }
    if !opens_allowed(g.recovery_state) {
        return Err(ProgramError::Custom(PerpRouterError::RecoveryDrainOnly));
    }
    match check_perp_market_key(&k.program_id, &m.phoenix_market, &k.perp_market) {
        Ok(()) => {},
        Err(e) => { return Err(e); },
    }
    if !key_eq(&m.phoenix_market, &k.phoenix_market) {
        return Err(ProgramError::Custom(PerpRouterError::InvalidPda));
    }
    let dt = current_slot.saturating_sub(m.last_oracle_slot);
    let clamped = match safe_oracle_read(p.mark_price, m.last_oracle_price, dt, m.max_bps_per_slot) {
        Ok(c) => c,
        Err(e) => { return Err(ProgramError::Custom(e)); },
    };
    match check_vaults(k, m) {
        Ok(()) => {},
        Err(e) => { return Err(e); },
    }
    if !key_eq(&t.owner, signer) {
        return Err(ProgramError::Custom(PerpRouterError::InvalidAuthority));
    }
    if t.collateral < p.margin {
        return Err(ProgramError::Custom(PerpRouterError::InsufficientCollateral));
    }
    proof {
        assert(0 <= p.margin * m.max_leverage_bps <= u128::MAX) by (nonlinear_arith)
            requires 0 <= p.margin <= u64::MAX, 0 <= m.max_leverage_bps <= u32::MAX;
    }
    let cap: u128 = ((p.margin as u128) * (m.max_leverage_bps as u128)) / 10_000;
    if (p.num_quote_lots_to_spend as u128) > cap {
        return Err(ProgramError::Custom(PerpRouterError::LeverageExceeded));
    }
    Ok(clamped)
}

/// Average fill price of the swap: quote spent per base received, or the
/// clamped mark when nothing was received.
pub open spec fn fill_average(quote_spent: u64, base_received: u64, clamped: u64) -> u64 {
    if base_received == 0 { clamped } else { (quote_spent / base_received) as u64 }
}

/// Outcome of the settlement: the trader account and the market's new
/// open interest.
pub open spec fn spec_settle(
    v: TraderView,
    m: PerpMarket,
    g: GlobalState,
    k: SwapKeys,
    p: OpenPositionParams,
    clamped: u64,
    quote_before: u64,
    quote_after: u64,
    base_before: u64,
    base_after: u64,
) -> Result<(TraderView, int), ProgramError> {
    if quote_after > quote_before || base_before > base_after {
        Err(ProgramError::Custom(PerpRouterError::MathOverflow))
    } else {
        let quote_spent = (quote_before - quote_after) as u64;
        let base_received = (base_after - base_before) as u64;
        if base_received < p.min_base_lots_to_receive {
            Err(ProgramError::Custom(PerpRouterError::LeverageExceeded))
        } else if !is_pda_of(k.trader_account@, trader_account_seeds(v.owner), k.program_id) {
            Err(ProgramError::Custom(PerpRouterError::InvalidPda))
        } else {
            match spec_open_into(v, k.perp_market@, base_received as i64, fill_average(quote_spent, base_received, clamped),
                p.margin, g.spec_a() as i128, g.epoch, m.funding_index@) {
                Err(e) => Err(e),
                Ok(v2) => if !fits_i128(m.spec_open_interest() + base_received) {
                    Err(ProgramError::Custom(PerpRouterError::SideIndexOverflow))
                } else {
                    Ok((v2, m.spec_open_interest() + base_received))
                },
            }
        }
    }
}

/// Settle the swap from the vault balances around it: quote spent and base
/// received must be non-negative, base received must meet the slippage
/// floor; then `margin` is locked into the long position at the swap's
/// average price, and the market's open interest grows by the base
/// received. The market's last oracle price/slot become `clamped` and
/// `current_slot`. On error nothing changes.
pub fn settle(
    t: &mut TraderAccount,
    m: &mut PerpMarket,
    g: &GlobalState,
    k: &SwapKeys,
    p: &OpenPositionParams,
    clamped: u64,
    quote_before: u64,
    quote_after: u64,
    base_before: u64,
    base_after: u64,
    current_slot: u64,
) -> (r: Result<(), ProgramError>)
    requires
        trader_wf(*old(t)),
    ensures
        match spec_settle(old(t)@, *old(m), *g, *k, *p, clamped, quote_before, quote_after, base_before, base_after) {
            Ok((v, oi)) => {
                &&& r is Ok
                &&& final(t)@ == v
                &&& final(m).spec_open_interest() == oi
                &&& *final(m) == (PerpMarket {
                    open_interest: final(m).open_interest,
                    last_oracle_price: clamped,
                    last_oracle_slot: current_slot,
                    ..*old(m)
                })
            },
            Err(e) => r == Err::<(), ProgramError>(e) && *final(t) == *old(t) && *final(m) == *old(m),
        },
        trader_wf(*final(t)),
{
    let quote_spent = match quote_before.checked_sub(quote_after) {
        Some(q) => q,
        None => { return Err(ProgramError::Custom(PerpRouterError::MathOverflow)); },
    };
    let base_received = match base_after.checked_sub(base_before) {
        Some(b) => b,
        None => { return Err(ProgramError::Custom(PerpRouterError::MathOverflow)); },
    };
    if base_received < p.min_base_lots_to_receive {
        return Err(ProgramError::Custom(PerpRouterError::LeverageExceeded));
    }
    match check_trader_account_key(&k.program_id, &t.owner, &k.trader_account) {
        Ok(()) => {},
        Err(e) => { return Err(e); },
    }
    let market_key = &k.perp_market;
    let fill_avg: u64 = if base_received == 0 { clamped } else { quote_spent / base_received };
    let mut w = *t;
    match open_into_position(&mut w, market_key, base_received as i64, fill_avg, p.margin, g.get_a(), g.epoch, m.funding_index) {
        Ok(()) => {},
        Err(e) => { return Err(e); },
    }
    let new_oi = match m.get_open_interest().checked_add(base_received as i128) {
        Some(o) => o,
        None => { return Err(ProgramError::Custom(PerpRouterError::SideIndexOverflow)); },
    };
    *t = w;
    m.set_open_interest(new_oi);
    m.last_oracle_price = clamped;
    m.last_oracle_slot = current_slot;
    Ok(())
}

/// `s ≤ ⌊x / 10_000⌋` exactly when `10_000 × s ≤ x`.
proof fn lemma_floor_cap(s: int, x: int)
    requires
        0 <= s,
        0 <= x,
    ensures
        (s <= x / 10_000) == (s * 10_000 <= x),
{
    assert((s <= x / 10_000) == (s * 10_000 <= x)) by (nonlinear_arith)
        requires 0 <= s, 0 <= x;
}

/// The leverage cap: an accepted open spends at most `margin ×
/// max_leverage_bps / 10_000` quote lots (`10_000 × spend ≤ margin ×
/// max_leverage_bps`), with collateral covering the margin and opens
/// allowed; a refusal with `LeverageExceeded` means the spend is above
/// that cap.
pub proof fn lemma_prepare_leverage_cap(
    v: TraderView,
    m: PerpMarket,
    g: GlobalState,
    signer: Seq<u8>,
    k: SwapKeys,
    p: OpenPositionParams,
    current_slot: u64,
)
    ensures
        spec_prepare(v, m, g, signer, k, p, current_slot) is Ok ==> {
            &&& p.num_quote_lots_to_spend * 10_000 <= p.margin * m.max_leverage_bps
            &&& v.collateral >= p.margin
            &&& g.recovery_state == RECOVERY_NORMAL
        },
        spec_prepare(v, m, g, signer, k, p, current_slot)
            == Err::<u64, ProgramError>(ProgramError::Custom(PerpRouterError::LeverageExceeded))
            ==> p.num_quote_lots_to_spend * 10_000 > p.margin * m.max_leverage_bps,
{
    lemma_floor_cap(p.num_quote_lots_to_spend as int, p.margin * m.max_leverage_bps);
}

/// Only the cap decides between opening and `LeverageExceeded`: where an
/// open is accepted or refused for leverage, the same open with any
/// positive spend within `margin × max_leverage_bps / 10_000` is
/// accepted, at the same clamped price.
pub proof fn lemma_prepare_accepts_within_cap(
    v: TraderView,
    m: PerpMarket,
    g: GlobalState,
    signer: Seq<u8>,
    k: SwapKeys,
    p: OpenPositionParams,
    current_slot: u64,
    spend: u64,
)
    requires
        spec_prepare(v, m, g, signer, k, p, current_slot) is Ok
            || spec_prepare(v, m, g, signer, k, p, current_slot)
                == Err::<u64, ProgramError>(ProgramError::Custom(PerpRouterError::LeverageExceeded)),
        0 < spend,
        spend * 10_000 <= p.margin * m.max_leverage_bps,
    ensures
        spec_prepare(v, m, g, signer, k, OpenPositionParams { num_quote_lots_to_spend: spend, ..p }, current_slot) is Ok,
        spec_prepare(v, m, g, signer, k, p, current_slot) is Ok ==>
            spec_prepare(v, m, g, signer, k, OpenPositionParams { num_quote_lots_to_spend: spend, ..p }, current_slot)
                == spec_prepare(v, m, g, signer, k, p, current_slot),
{
    lemma_floor_cap(spend as int, p.margin * m.max_leverage_bps);
    lemma_floor_cap(p.num_quote_lots_to_spend as int, p.margin * m.max_leverage_bps);
}

} // verus!
