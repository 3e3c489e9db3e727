//! Margin math for matched-flow orders.

use vstd::prelude::*;

use crate::error::{PerpRouterError, ProgramError};

verus! {

/// What [`quote_lots_from_base_at_price`] returns.
pub open spec fn spec_quote_lots_from_base_at_price(
    base_lots: u64,
    price_in_ticks: u64,
    tick_size_qlpbupt: u64,
    base_lots_per_base_unit: u64,
) -> Result<u64, ProgramError> {
    if base_lots_per_base_unit == 0 {
        Err(ProgramError::InvalidAccountData)
    } else if base_lots * price_in_ticks * tick_size_qlpbupt > u128::MAX {
        Err(ProgramError::Custom(PerpRouterError::MathOverflow))
    } else if (base_lots * price_in_ticks * tick_size_qlpbupt) / (base_lots_per_base_unit as int) > u64::MAX {
        Err(ProgramError::Custom(PerpRouterError::MathOverflow))
    } else {
        Ok(((base_lots * price_in_ticks * tick_size_qlpbupt) / (base_lots_per_base_unit as int)) as u64)
    }
}

/// What [`quote_lots_to_margin`] returns.
pub open spec fn spec_quote_lots_to_margin(quote_lots: u64, max_leverage_bps: u32) -> Result<u64, ProgramError> {
    if max_leverage_bps == 0 {
        Err(ProgramError::InvalidAccountData)
    } else if quote_lots * 10_000 > u64::MAX {
        Err(ProgramError::Custom(PerpRouterError::MathOverflow))
    } else {
        Ok(((quote_lots * 10_000) / (max_leverage_bps as int)) as u64)
    }
}

/// Quote lots for `base_lots` at `price_in_ticks`:
/// `base_lots × price × tick_size / base_lots_per_base_unit` (rounded down),
/// computed in `u128`.
pub fn quote_lots_from_base_at_price(
    base_lots: u64,
    price_in_ticks: u64,
    tick_size_qlpbupt: u64,
    base_lots_per_base_unit: u64,
) -> (r: Result<u64, ProgramError>)
    ensures
        r == spec_quote_lots_from_base_at_price(base_lots, price_in_ticks, tick_size_qlpbupt, base_lots_per_base_unit),
{
    if base_lots_per_base_unit == 0 {
        return Err(ProgramError::InvalidAccountData);
    }
    proof {
        vstd::arithmetic::mul::lemma_mul_upper_bound(base_lots as int, u64::MAX as int, price_in_ticks as int, u64::MAX as int);
        vstd::arithmetic::mul::lemma_mul_nonnegative(base_lots as int, price_in_ticks as int);
        vstd::arithmetic::mul::lemma_mul_nonnegative(base_lots * price_in_ticks, tick_size_qlpbupt as int);
    }
    let bp: u128 = (base_lots as u128) * (price_in_ticks as u128);
    let n = match bp.checked_mul(tick_size_qlpbupt as u128) {
        Some(n) => n,
        None => { return Err(ProgramError::Custom(PerpRouterError::MathOverflow)); },
    };
    let q: u128 = n / (base_lots_per_base_unit as u128);
    if q > u64::MAX as u128 {
        return Err(ProgramError::Custom(PerpRouterError::MathOverflow));
    }
    Ok(q as u64)
}

/// Margin required for `quote_lots` at `max_leverage_bps`:
/// `quote_lots × 10_000 / max_leverage_bps` (rounded down).
pub fn quote_lots_to_margin(quote_lots: u64, max_leverage_bps: u32) -> (r: Result<u64, ProgramError>)
    ensures
        r == spec_quote_lots_to_margin(quote_lots, max_leverage_bps),
{
    if max_leverage_bps == 0 {
        return Err(ProgramError::InvalidAccountData);
    }
    match quote_lots.checked_mul(10_000) {
        Some(n) => Ok(n / (max_leverage_bps as u64)),
        None => Err(ProgramError::Custom(PerpRouterError::MathOverflow)),
    }
}

} // verus!
