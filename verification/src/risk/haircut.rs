//! Invariant H — withdrawal haircut.
//!
//! ```text
//!     Residual = max(0, V − C_tot − I)
//!     h        = min(Residual, total_matured_PnL) / total_matured_PnL
//!     payout   = withdrawal × h
//! ```
//! Collateral is senior (always paid in full); only matured PnL is haircut.

use vstd::prelude::*;

use crate::error::PerpRouterError;

verus! {

/// `V − C − I`, saturating at zero at each subtraction.
pub open spec fn residual(v: u64, c: u64, i: u64) -> int {
    let after_c = if v >= c { v - c } else { 0 };
    if after_c >= i { after_c - i } else { 0 }
}

/// The haircut ratio `(num, den)` for the given balance sheet.
pub open spec fn spec_compute_h(v: u64, c: u64, i: u64, total_matured_pnl: u64) -> (u64, u64) {
    if total_matured_pnl == 0 {
        (1, 1)
    } else {
        let r = residual(v, c, i);
        (if r < total_matured_pnl { r as u64 } else { total_matured_pnl }, total_matured_pnl)
    }
}

/// What [`apply_h`] returns.
pub open spec fn spec_apply_h(amount: u64, num: u64, den: u64) -> Result<u64, PerpRouterError> {
    if den == 0 {
        Err(PerpRouterError::HaircutOverflow)
    } else if (amount * num) / (den as int) > u64::MAX {
        Err(PerpRouterError::HaircutOverflow)
    } else {
        Ok(((amount * num) / (den as int)) as u64)
    }
}

/// What [`split_withdrawal`] returns.
pub open spec fn spec_split_withdrawal(
    collateral_request: u64,
    matured_pnl_request: u64,
    h_num: u64,
    h_den: u64,
) -> Result<(u64, u64, u64), PerpRouterError> {
    match spec_apply_h(matured_pnl_request, h_num, h_den) {
        Err(e) => Err(e),
        Ok(p) => if collateral_request + p > u64::MAX {
            Err(PerpRouterError::HaircutOverflow)
        } else {
            Ok((collateral_request, p, (collateral_request + p) as u64))
        },
    }
}

/// The haircut ratio `(num, den)`: `num = min(Residual, total_matured_pnl)`
/// and `den = total_matured_pnl`; `(1, 1)` (no haircut) when no PnL is owed.
pub fn compute_h(
    v_total_pool_value: u64,
    c_total_collateral: u64,
    i_insurance_reserve: u64,
    total_matured_pnl: u64,
) -> (h: (u64, u64))
    ensures
        h == spec_compute_h(v_total_pool_value, c_total_collateral, i_insurance_reserve, total_matured_pnl),
        // h is a proper fraction in [0, 1].
        h.0 <= h.1,
        h.1 >= 1,
{
    let residual = v_total_pool_value.saturating_sub(c_total_collateral).saturating_sub(i_insurance_reserve);
    if total_matured_pnl == 0 {
        return (1, 1);
    }
    let num = if residual < total_matured_pnl { residual } else { total_matured_pnl };
    (num, total_matured_pnl)
}

/// `amount × num / den` (rounded down), computed in `u128`. Errors with
/// `HaircutOverflow` when `den == 0` or the result exceeds `u64::MAX`.
pub fn apply_h(amount: u64, num: u64, den: u64) -> (r: Result<u64, PerpRouterError>)
    ensures
        r == spec_apply_h(amount, num, den),
        // A haircut never pays more than was asked for.
        0 < den && num <= den ==> r is Ok && r->Ok_0 <= amount,
{
    if den == 0 {
        return Err(PerpRouterError::HaircutOverflow);
    }
    proof {
        vstd::arithmetic::mul::lemma_mul_upper_bound(amount as int, u64::MAX as int, num as int, u64::MAX as int);
        vstd::arithmetic::mul::lemma_mul_nonnegative(amount as int, num as int);
    }
    let product: u128 = (amount as u128) * (num as u128);
    let scaled: u128 = product / (den as u128);
    proof {
        if num <= den {
            lemma_scale_le(amount as int, num as int, den as int);
        }
    }
    if scaled > u64::MAX as u128 {
        return Err(PerpRouterError::HaircutOverflow);
    }
    Ok(scaled as u64)
}

/// `a × n / d ≤ a` whenever `0 ≤ n ≤ d` and `d > 0`.
pub proof fn lemma_scale_le(a: int, n: int, d: int)
    requires
        0 <= a,
        0 <= n <= d,
        0 < d,
    ensures
        0 <= (a * n) / d <= a,
{
    vstd::arithmetic::mul::lemma_mul_inequality(n, d, a);
    vstd::arithmetic::mul::lemma_mul_nonnegative(a, n);
    vstd::arithmetic::div_mod::lemma_div_is_ordered(a * n, a * d, d);
    vstd::arithmetic::div_mod::lemma_div_multiples_vanish(a, d);
    vstd::arithmetic::div_mod::lemma_div_pos_is_pos(a * n, d);
    assert(a * n == n * a) by (nonlinear_arith);
    assert(a * d == d * a) by (nonlinear_arith);
}

/// Split a withdrawal into its senior part (collateral, always paid in
/// full) and its junior part (matured PnL, scaled by `h_num / h_den`).
/// Returns `(collateral_payout, pnl_payout, total_payout)`.
pub fn split_withdrawal(
    collateral_request: u64,
    matured_pnl_request: u64,
    h_num: u64,
    h_den: u64,
) -> (r: Result<(u64, u64, u64), PerpRouterError>)
    ensures
        r == spec_split_withdrawal(collateral_request, matured_pnl_request, h_num, h_den),
        // Collateral is senior: it is paid in full.
        r is Ok ==> r->Ok_0.0 == collateral_request,
{
    let collateral_payout = collateral_request;
    let pnl_payout = match apply_h(matured_pnl_request, h_num, h_den) {
        Ok(p) => p,
        Err(e) => { return Err(e); },
    };
    let total = match collateral_payout.checked_add(pnl_payout) {
        Some(t) => t,
        None => { return Err(PerpRouterError::HaircutOverflow); },
    };
    Ok((collateral_payout, pnl_payout, total))
}

/// Invariant H: a matured-PnL withdrawal of at most the total matured PnL,
/// scaled by the haircut of the current balance sheet, pays out no more
/// than it asks for and no more than the pool's residual
/// `max(0, V − C − I)`, unless no matured PnL is owed at all.
pub proof fn lemma_haircut_bounded_by_residual(v: u64, c: u64, i: u64, total_matured_pnl: u64, request: u64)
    requires
        request <= total_matured_pnl,
    ensures
        ({
            let h = spec_compute_h(v, c, i, total_matured_pnl);
            let r = spec_apply_h(request, h.0, h.1);
            &&& r is Ok
            &&& r->Ok_0 <= request
            &&& total_matured_pnl > 0 ==> r->Ok_0 <= residual(v, c, i)
        }),
{
    let h = spec_compute_h(v, c, i, total_matured_pnl);
    lemma_scale_le(request as int, h.0 as int, h.1 as int);
    if total_matured_pnl > 0 {
        // request * num / den <= num, since request <= den
        lemma_scale_le(h.0 as int, request as int, h.1 as int);
        assert(request * h.0 == h.0 * request) by (nonlinear_arith);
    }
}

} // verus!
