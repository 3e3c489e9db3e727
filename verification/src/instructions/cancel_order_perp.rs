//! CancelOrderPerp — rollup hot path: cancels one resting order and
//! releases exactly the margin that backed it (other resting orders keep
//! their reservations).

use vstd::prelude::*;

use crate::error::{PerpRouterError, ProgramError};
use crate::cpi::phoenix::Side;
use crate::instructions::claim_seat::check_orderbook;
use crate::instructions::place_order_perp::spec_reserve_posted_margin;
use crate::validation::loaders::check_trader_account_key;
use crate::risk::margin::{
    quote_lots_from_base_at_price, quote_lots_to_margin, spec_quote_lots_from_base_at_price,
    spec_quote_lots_to_margin,
};
use crate::state::bytes::{key_eq, Pubkey};
use crate::state::trader_account::{TraderAccount, TraderView};
use crate::validation::loaders::{is_pda_of, orderbook_seeds, trader_account_seeds};

verus! {

/// Instruction parameters of CancelOrderPerp: the order's id.
pub struct CancelOrderPerpParams {
    pub price_in_ticks: u64,
    pub order_sequence_number: u64,
}

/// What the account checks of a trading instruction return.
pub open spec fn spec_check_trading_accounts(
    program_id: Pubkey,
    trader_key: Pubkey,
    trader_account_key: Pubkey,
    perp_market_key: Pubkey,
    orderbook_key: Pubkey,
    owner: Seq<u8>,
) -> Result<(), ProgramError> {
    if !is_pda_of(orderbook_key@, orderbook_seeds(perp_market_key@), program_id) {
        Err(ProgramError::Custom(PerpRouterError::InvalidPda))
    } else if !is_pda_of(trader_account_key@, trader_account_seeds(trader_key@), program_id) {
        Err(ProgramError::Custom(PerpRouterError::InvalidPda))
    } else if owner != trader_key@ {
        Err(ProgramError::Custom(PerpRouterError::InvalidAuthority))
    } else {
        Ok(())
    }
}

/// The orderbook must be the market's orderbook PDA, the trader account
/// the signer's PDA, and the account owned by the signer.
pub fn check_trading_accounts(
    program_id: &Pubkey,
    trader_key: &Pubkey,
    trader_account_key: &Pubkey,
    perp_market_key: &Pubkey,
    orderbook_key: &Pubkey,
    t: &TraderAccount,
) -> (r: Result<(), ProgramError>)
    ensures
        r == spec_check_trading_accounts(*program_id, *trader_key, *trader_account_key, *perp_market_key,
            *orderbook_key, t.owner@),
{
    match check_orderbook(program_id, perp_market_key, orderbook_key) {
        Ok(()) => {},
        Err(e) => { return Err(e); },
    }
    match check_trader_account_key(program_id, trader_key, trader_account_key) {
        Ok(()) => {},
        Err(e) => { return Err(e); },
    }
    if !key_eq(&t.owner, trader_key) {
        return Err(ProgramError::Custom(PerpRouterError::InvalidAuthority));
    }
    Ok(())
}

/// The margin a cancelled order frees, and the account after releasing it.
pub open spec fn spec_release_cancelled_margin(
    v: TraderView,
    cancelled_base_lots: u64,
    price_in_ticks: u64,
    tick_size_qlpbupt: u64,
    base_lots_per_base_unit: u64,
    max_leverage_bps: u32,
) -> Result<(TraderView, u64), ProgramError> {
    match spec_quote_lots_from_base_at_price(cancelled_base_lots, price_in_ticks, tick_size_qlpbupt, base_lots_per_base_unit) {
        Err(e) => Err(e),
        Ok(quote_lots) => match spec_quote_lots_to_margin(quote_lots, max_leverage_bps) {
            Err(e) => Err(e),
            Ok(freed) => if v.locked_margin < freed {
                Err(ProgramError::Custom(PerpRouterError::MathOverflow))
            } else {
                Ok((TraderView { locked_margin: (v.locked_margin - freed) as u64, ..v }, freed))
            },
        },
    }
}

/// Release the margin of `cancelled_base_lots` resting at
/// `price_in_ticks`: its quote value at the book's tick size and lot size,
/// times 10 000 over the leverage cap, comes off `locked_margin` (checked).
/// Returns the margin freed. On error nothing changes.
pub fn release_cancelled_margin(
    t: &mut TraderAccount,
    cancelled_base_lots: u64,
    price_in_ticks: u64,
    tick_size_qlpbupt: u64,
    base_lots_per_base_unit: u64,
    max_leverage_bps: u32,
) -> (r: Result<u64, ProgramError>)
    ensures
        match spec_release_cancelled_margin(old(t)@, cancelled_base_lots, price_in_ticks, tick_size_qlpbupt,
            base_lots_per_base_unit, max_leverage_bps) {
            Ok((v, freed)) => r == Ok::<u64, ProgramError>(freed) && final(t)@ == v,
            Err(e) => r == Err::<u64, ProgramError>(e) && *final(t) == *old(t),
        },
{
    let quote_lots = match quote_lots_from_base_at_price(cancelled_base_lots, price_in_ticks, tick_size_qlpbupt, base_lots_per_base_unit) {
        Ok(q) => q,
        Err(e) => { return Err(e); },
    };
    let freed = match quote_lots_to_margin(quote_lots, max_leverage_bps) {
        Ok(m) => m,
        Err(e) => { return Err(e); },
    };
    if t.locked_margin < freed {
        return Err(ProgramError::Custom(PerpRouterError::MathOverflow));
    }
    t.locked_margin = t.locked_margin - freed;
    Ok(freed)
}

/// On a book with unit tick size and one base lot per base unit (the
/// router's v1 book parameters), cancelling an ask that rested in full
/// releases exactly the margin its posting reserved: the account is back
/// where it was before the order.
pub proof fn lemma_cancel_releases_posted_margin(v: TraderView, price_in_ticks: u64, base_lots: u64, max_leverage_bps: u32)
    requires
        spec_reserve_posted_margin(v, Side::Ask, price_in_ticks, base_lots, 0, max_leverage_bps) is Ok,
    ensures
        spec_release_cancelled_margin(
            spec_reserve_posted_margin(v, Side::Ask, price_in_ticks, base_lots, 0, max_leverage_bps)->Ok_0,
            base_lots, price_in_ticks, 1, 1, max_leverage_bps) matches Ok((v2, _freed)) && v2 == v,
{
    assert(base_lots * price_in_ticks * 1 == price_in_ticks * base_lots) by (nonlinear_arith);
    assert((price_in_ticks * base_lots) / 1int == price_in_ticks * base_lots);
}

} // verus!
