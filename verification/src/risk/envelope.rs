//! Oracle envelope — per-slot price clamp.
//!
//! Bound: `|P_new − P_last| ≤ max_bps_per_slot × dt × P_last / 10_000`
//! with `dt = max(elapsed_slots, 1)`.

use vstd::prelude::*;

use crate::error::PerpRouterError;

verus! {

/// Basis-point denominator.
pub const BPS_DENOMINATOR: u128 = 10_000;

/// Slots counted by the envelope: a zero elapsed count is treated as one.
pub open spec fn envelope_slots(elapsed_slots: u64) -> int {
    if elapsed_slots == 0 { 1 } else { elapsed_slots as int }
}

/// `max_bps_per_slot × dt × last_price`, before division by 10_000.
pub open spec fn envelope_product(last_price: u64, elapsed_slots: u64, max_bps_per_slot: u32) -> int {
    max_bps_per_slot * envelope_slots(elapsed_slots) * last_price
}

/// The largest move allowed away from `last_price`.
pub open spec fn envelope_cap(last_price: u64, elapsed_slots: u64, max_bps_per_slot: u32) -> int {
    envelope_product(last_price, elapsed_slots, max_bps_per_slot) / (BPS_DENOMINATOR as int)
}

/// `raw` clamped into `[last − cap, last + cap]`, then into the `u64` range.
pub open spec fn clamp_to_envelope(raw: int, last: int, cap: int) -> int {
    if raw > last + cap {
        if last + cap > u64::MAX { u64::MAX as int } else { last + cap }
    } else if raw < last - cap {
        if last - cap < 0 { 0 } else { last - cap }
    } else {
        raw
    }
}

/// What [`safe_oracle_read`] returns.
pub open spec fn spec_safe_oracle_read(
    raw: u64,
    last_price: u64,
    elapsed_slots: u64,
    max_bps_per_slot: u32,
) -> Result<u64, PerpRouterError> {
    if last_price == 0 {
        Ok(raw)
    } else if envelope_product(last_price, elapsed_slots, max_bps_per_slot) > u128::MAX {
        Err(PerpRouterError::MathOverflow)
    } else {
        Ok(clamp_to_envelope(
            raw as int,
            last_price as int,
            envelope_cap(last_price, elapsed_slots, max_bps_per_slot),
        ) as u64)
    }
}

proof fn lemma_product_bounds(bps: u32, dt: u64, last: u64)
    ensures
        0 <= (bps as int) * (dt as int) <= u32::MAX as int * u64::MAX as int,
        0 <= (bps as int) * (dt as int) * (last as int),
{
    vstd::arithmetic::mul::lemma_mul_upper_bound(bps as int, u32::MAX as int, dt as int, u64::MAX as int);
    vstd::arithmetic::mul::lemma_mul_nonnegative(bps as int, dt as int);
    vstd::arithmetic::mul::lemma_mul_nonnegative((bps as int) * (dt as int), last as int);
}

/// Clamp `raw` to within `max_bps_per_slot × dt` basis points of
/// `last_price`. A `last_price` of zero is a cold start: `raw` is accepted.
/// The only error is `MathOverflow`, when the cap's product does not fit
/// in `u128`.
pub fn safe_oracle_read(
    raw: u64,
    last_price: u64,
    elapsed_slots: u64,
    max_bps_per_slot: u32,
) -> (r: Result<u64, PerpRouterError>)
    ensures
        r == spec_safe_oracle_read(raw, last_price, elapsed_slots, max_bps_per_slot),
        // The envelope bound: an accepted price is never farther from the
        // last price than the cap.
        last_price != 0 && r is Ok ==> {
            let p = r->Ok_0 as int;
            let cap = envelope_cap(last_price, elapsed_slots, max_bps_per_slot);
            last_price - cap <= p <= last_price + cap
        },
        // A move within the cap passes through unchanged.
        r is Ok && ({
            let cap = envelope_cap(last_price, elapsed_slots, max_bps_per_slot);
            last_price - cap <= raw <= last_price + cap
        }) ==> r == Ok::<u64, PerpRouterError>(raw),
{
    if last_price == 0 {
        return Ok(raw);
    }
    let dt: u128 = if elapsed_slots > 1 { elapsed_slots as u128 } else { 1 };
    proof {
        lemma_product_bounds(max_bps_per_slot, dt as u64, last_price);
        assert((max_bps_per_slot as int) * (dt as int) < u128::MAX) by (nonlinear_arith)
            requires
                (max_bps_per_slot as int) * (dt as int) <= u32::MAX as int * u64::MAX as int,
        ;
    }
    let step = (max_bps_per_slot as u128).checked_mul(dt);
    let step = match step {
        Some(s) => s,
        None => { return Err(PerpRouterError::MathOverflow); },
    };
    let full = step.checked_mul(last_price as u128);
    let full = match full {
        Some(f) => f,
        None => { return Err(PerpRouterError::MathOverflow); },
    };
    let cap: u128 = full / BPS_DENOMINATOR;
    proof {
        assert(full as int == envelope_product(last_price, elapsed_slots, max_bps_per_slot));
        assert(cap as int == envelope_cap(last_price, elapsed_slots, max_bps_per_slot));
    }
    let last: u128 = last_price as u128;
    let rawv: u128 = raw as u128;
    let diff: u128 = if rawv >= last { rawv - last } else { last - rawv };
    if diff <= cap {
        Ok(raw)
    } else if rawv > last {
        assert(cap <= u128::MAX / 10_000);
        let clamped: u128 = last + cap;
        if clamped > u64::MAX as u128 {
            Ok(u64::MAX)
        } else {
            Ok(clamped as u64)
        }
    } else {
        let clamped: u128 = if last >= cap { last - cap } else { 0 };
        Ok(clamped as u64)
    }
}

} // verus!
