//! A/K/F/B lazy side indices — replace auto-deleveraging.
//!
//! All fixed-point `i128`, `1.0 == FIXED_POINT_ONE`:
//! - **A**: global position scale factor; `effective = stored × A`.
//! - **K**: accumulated mark effects of successive A scalings.
//! - **F**: lazy per-unit funding accumulator.
//! - **B**: bankruptcy residual booked for audit.
//!
//! Divisions round toward zero, as integer division does.

use vstd::prelude::*;

use crate::constants::FIXED_POINT_ONE;
use crate::error::PerpRouterError;

verus! {

/// Integer division rounding toward zero (`d > 0`).
pub open spec fn trunc_div(n: int, d: int) -> int {
    if n >= 0 { n / d } else { -((-n) / d) }
}

/// Whether `x` fits in an `i128`.
pub open spec fn fits_i128(x: int) -> bool {
    i128::MIN <= x <= i128::MAX
}

/// What [`effective_size`] returns.
pub open spec fn spec_effective_size(stored: i64, a: i128) -> Result<i64, PerpRouterError> {
    let p = stored * a;
    if !fits_i128(p) {
        Err(PerpRouterError::SideIndexOverflow)
    } else {
        let q = trunc_div(p, FIXED_POINT_ONE as int);
        if q < i64::MIN || q > i64::MAX {
            Err(PerpRouterError::SideIndexOverflow)
        } else {
            Ok(q as i64)
        }
    }
}

/// What [`position_funding_owed`] returns.
pub open spec fn spec_position_funding_owed(effective: i64, current_f: i128, entry_f: i128) -> Result<i128, PerpRouterError> {
    let delta = current_f - entry_f;
    if !fits_i128(delta) || !fits_i128(effective * delta) {
        Err(PerpRouterError::SideIndexOverflow)
    } else {
        Ok(trunc_div(effective * delta, FIXED_POINT_ONE as int) as i128)
    }
}

/// The fixed-point fraction `(total_oi − shortfall) / total_oi`, rounded down.
pub open spec fn shortfall_scale(shortfall: u64, total_oi: u64) -> int {
    ((total_oi - shortfall) * FIXED_POINT_ONE) / (total_oi as int)
}

/// What [`apply_shortfall`] returns.
pub open spec fn spec_apply_shortfall(a: i128, b: i128, shortfall: u64, total_oi: u64) -> Result<(i128, i128), PerpRouterError> {
    if total_oi == 0 || shortfall >= total_oi {
        if !fits_i128(b + shortfall) {
            Err(PerpRouterError::SideIndexOverflow)
        } else {
            Ok((0i128, (b + shortfall) as i128))
        }
    } else {
        let scaled = a * shortfall_scale(shortfall, total_oi);
        if !fits_i128(scaled) || !fits_i128(b + shortfall) {
            Err(PerpRouterError::SideIndexOverflow)
        } else {
            Ok((trunc_div(scaled, FIXED_POINT_ONE as int) as i128, (b + shortfall) as i128))
        }
    }
}

/// `(x × ONE) / ONE == x` under truncating division.
proof fn lemma_trunc_div_mul_cancel(x: int)
    ensures
        trunc_div(x * FIXED_POINT_ONE, FIXED_POINT_ONE as int) == x,
{
    let one = FIXED_POINT_ONE as int;
    if x >= 0 {
        vstd::arithmetic::mul::lemma_mul_nonnegative(x, one);
        vstd::arithmetic::div_mod::lemma_div_multiples_vanish(x, one);
        assert(x * one == one * x) by (nonlinear_arith);
    } else {
        assert(-(x * one) == (-x) * one) by (nonlinear_arith);
        vstd::arithmetic::div_mod::lemma_div_multiples_vanish(-x, one);
        assert((-x) * one == one * (-x)) by (nonlinear_arith);
        assert(x * one < 0) by (nonlinear_arith) requires x < 0, one > 0;
    }
}

/// Effective base-lot size of a position under the global scale A:
/// `stored × A / FIXED_POINT_ONE`, rounded toward zero. Errors with
/// `SideIndexOverflow` when the product or the result does not fit.
pub fn effective_size(stored: i64, a: i128) -> (r: Result<i64, PerpRouterError>)
    ensures
        r == spec_effective_size(stored, a),
        // At A = 1.0 positions keep their stored size.
        a == FIXED_POINT_ONE ==> r == Ok::<i64, PerpRouterError>(stored),
        // While 0 ≤ A ≤ 1.0, positions only shrink and keep their sign.
        0 <= a <= FIXED_POINT_ONE ==> r is Ok && (
            if stored >= 0 { 0 <= r->Ok_0 <= stored } else { stored <= r->Ok_0 <= 0 }),
{
    proof {
        if a == FIXED_POINT_ONE {
            lemma_trunc_div_mul_cancel(stored as int);
            assert(fits_i128(stored * a)) by (nonlinear_arith)
                requires i64::MIN <= stored <= i64::MAX, a == 1_000_000_000_000_000_000int;
        }
        if 0 <= a <= FIXED_POINT_ONE {
            lemma_shrink(stored as int, a as int);
        }
    }
    let product = (stored as i128).checked_mul(a);
    let product = match product {
        Some(p) => p,
        None => { return Err(PerpRouterError::SideIndexOverflow); },
    };
    let scaled: i128 = product / FIXED_POINT_ONE;
    if scaled > i64::MAX as i128 || scaled < i64::MIN as i128 {
        return Err(PerpRouterError::SideIndexOverflow);
    }
    Ok(scaled as i64)
}

/// Scaling by `0 ≤ a ≤ ONE` moves `x` toward zero.
proof fn lemma_shrink(x: int, a: int)
    requires
        0 <= a <= FIXED_POINT_ONE,
    ensures
        fits_i128(x * a) || !(i64::MIN <= x <= i64::MAX),
        x >= 0 ==> 0 <= trunc_div(x * a, FIXED_POINT_ONE as int) <= x,
        x < 0 ==> x <= trunc_div(x * a, FIXED_POINT_ONE as int) <= 0,
{
    let one = FIXED_POINT_ONE as int;
    if i64::MIN <= x <= i64::MAX {
        assert(fits_i128(x * a)) by (nonlinear_arith)
            requires i64::MIN <= x <= i64::MAX, 0 <= a <= 1_000_000_000_000_000_000int;
    }
    if x >= 0 {
        assert(0 <= x * a <= x * one) by (nonlinear_arith) requires x >= 0, 0 <= a <= one;
        vstd::arithmetic::div_mod::lemma_div_is_ordered(x * a, x * one, one);
        vstd::arithmetic::div_mod::lemma_div_multiples_vanish(x, one);
        assert(x * one == one * x) by (nonlinear_arith);
        vstd::arithmetic::div_mod::lemma_div_pos_is_pos(x * a, one);
    } else {
        let y = -x;
        assert(x * a == -(y * a)) by (nonlinear_arith) requires y == -x;
        assert(0 <= y * a <= y * one) by (nonlinear_arith) requires y > 0, 0 <= a <= one;
        vstd::arithmetic::div_mod::lemma_div_is_ordered(y * a, y * one, one);
        vstd::arithmetic::div_mod::lemma_div_multiples_vanish(y, one);
        assert(y * one == one * y) by (nonlinear_arith);
        vstd::arithmetic::div_mod::lemma_div_pos_is_pos(y * a, one);
        if x * a >= 0 {
            assert(x * a == 0);
            assert(y * a == 0);
        }
    }
}

/// Funding owed by a position since its last touch:
/// `effective × (current_F − entry_F) / FIXED_POINT_ONE`, rounded toward
/// zero. Positive means the position owes funding.
pub fn position_funding_owed(effective: i64, current_f: i128, entry_f: i128) -> (r: Result<i128, PerpRouterError>)
    ensures
        r == spec_position_funding_owed(effective, current_f, entry_f),
        // No funding accrues while F stands still.
        current_f == entry_f ==> r == Ok::<i128, PerpRouterError>(0),
{
    let delta = match current_f.checked_sub(entry_f) {
        Some(d) => d,
        None => { return Err(PerpRouterError::SideIndexOverflow); },
    };
    proof {
        if current_f == entry_f {
            assert(effective * delta == 0) by (nonlinear_arith) requires delta == 0;
        }
    }
    let owed = match (effective as i128).checked_mul(delta) {
        Some(v) => v,
        None => { return Err(PerpRouterError::SideIndexOverflow); },
    };
    let owed_scaled: i128 = owed / FIXED_POINT_ONE;
    proof {
        if owed == 0 {
            assert(owed_scaled == 0);
        }
    }
    Ok(owed_scaled)
}

/// Book a shortfall: shrink A by `(total_oi − shortfall) / total_oi` and
/// add the shortfall to B. With no open interest, or a shortfall that
/// wipes it out, A is clamped to zero (full insolvency). Returns `(A, B)`.
pub fn apply_shortfall(a: i128, b: i128, shortfall: u64, total_oi: u64) -> (r: Result<(i128, i128), PerpRouterError>)
    ensures
        r == spec_apply_shortfall(a, b, shortfall, total_oi),
        // The loss is always booked into B.
        r is Ok ==> r->Ok_0.1 == b + shortfall,
        // Full insolvency clamps A to zero.
        r is Ok && (total_oi == 0 || shortfall >= total_oi) ==> r->Ok_0.0 == 0,
        // Positions only shrink: from 0 ≤ A ≤ 1.0, A stays in [0, A].
        0 <= a <= FIXED_POINT_ONE && fits_i128(b + shortfall) ==> r is Ok && 0 <= r->Ok_0.0 <= a,
{
    if total_oi == 0 || shortfall >= total_oi {
        let b_new = match b.checked_add(shortfall as i128) {
            Some(v) => v,
            None => { return Err(PerpRouterError::SideIndexOverflow); },
        };
        return Ok((0, b_new));
    }
    let remaining: i128 = (total_oi - shortfall) as i128;
    proof {
        assert(remaining * FIXED_POINT_ONE <= u64::MAX as int * 1_000_000_000_000_000_000int) by (nonlinear_arith)
            requires 0 <= remaining <= u64::MAX;
        assert(0 <= remaining * FIXED_POINT_ONE) by (nonlinear_arith) requires 0 <= remaining;
    }
    let numer: i128 = remaining * FIXED_POINT_ONE;
    let scale_factor: i128 = numer / (total_oi as i128);
    proof {
        lemma_scale_at_most_one(shortfall, total_oi);
        assert(scale_factor as int == shortfall_scale(shortfall, total_oi));
    }
    proof {
        if 0 <= a <= FIXED_POINT_ONE {
            lemma_shrink_a(a as int, scale_factor as int);
        }
    }
    let a_scaled = match a.checked_mul(scale_factor) {
        Some(v) => v,
        None => { return Err(PerpRouterError::SideIndexOverflow); },
    };
    let a_new: i128 = a_scaled / FIXED_POINT_ONE;
    let b_new = match b.checked_add(shortfall as i128) {
        Some(v) => v,
        None => { return Err(PerpRouterError::SideIndexOverflow); },
    };
    Ok((a_new, b_new))
}

/// The shortfall scale is a fraction in `[0, 1.0]`.
proof fn lemma_scale_at_most_one(shortfall: u64, total_oi: u64)
    requires
        0 < total_oi,
        shortfall < total_oi,
    ensures
        0 <= shortfall_scale(shortfall, total_oi) <= FIXED_POINT_ONE,
{
    let one = FIXED_POINT_ONE as int;
    let rem = total_oi - shortfall;
    assert(0 <= rem * one <= total_oi * one) by (nonlinear_arith)
        requires 0 <= rem <= total_oi, one > 0;
    vstd::arithmetic::div_mod::lemma_div_is_ordered(rem * one, total_oi * one, total_oi as int);
    vstd::arithmetic::div_mod::lemma_div_multiples_vanish(one, total_oi as int);
    assert(total_oi * one == total_oi * one);
    assert((total_oi as int) * one == one * (total_oi as int)) by (nonlinear_arith);
    vstd::arithmetic::div_mod::lemma_div_pos_is_pos(rem * one, total_oi as int);
}

/// `a × s / ONE` lies in `[0, a]` for `0 ≤ a ≤ ONE`, `0 ≤ s ≤ ONE`.
proof fn lemma_shrink_a(a: int, s: int)
    requires
        0 <= a <= FIXED_POINT_ONE,
        0 <= s <= FIXED_POINT_ONE,
    ensures
        fits_i128(a * s),
        0 <= trunc_div(a * s, FIXED_POINT_ONE as int) <= a,
{
    let one = FIXED_POINT_ONE as int;
    assert(0 <= a * s <= a * one) by (nonlinear_arith) requires 0 <= a, 0 <= s <= one;
    assert(a * one <= one * one) by (nonlinear_arith) requires 0 <= a <= one, one > 0;
    vstd::arithmetic::div_mod::lemma_div_is_ordered(a * s, a * one, one);
    vstd::arithmetic::div_mod::lemma_div_multiples_vanish(a, one);
    assert(a * one == one * a) by (nonlinear_arith);
    vstd::arithmetic::div_mod::lemma_div_pos_is_pos(a * s, one);
}

} // verus!
