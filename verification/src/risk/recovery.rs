//! Recovery state machine.
//!
//! - `Normal`       + |A| < A_PRECISION_FLOOR → `DrainOnly`
//! - `DrainOnly`    + open_interest == 0      → `ResetPending`
//! - `ResetPending`                           → `Normal`
//!   (the caller sets A = FIXED_POINT_ONE and bumps the epoch)
//!
//! Opening positions is allowed only in `Normal`.

use vstd::prelude::*;

use crate::constants::{A_PRECISION_FLOOR, FIXED_POINT_ONE};
use crate::state::global::{RECOVERY_DRAIN_ONLY, RECOVERY_NORMAL, RECOVERY_RESET_PENDING};

verus! {

/// The mathematical absolute value of `a` (`2^127` for `i128::MIN`).
pub open spec fn abs_int(a: i128) -> int {
    if a < 0 { -a } else { a as int }
}

/// The recovery state after one check.
pub open spec fn spec_next_state(current: u8, a: i128, open_interest: u64) -> u8 {
    if current == RECOVERY_NORMAL {
        if abs_int(a) < A_PRECISION_FLOOR { RECOVERY_DRAIN_ONLY } else { RECOVERY_NORMAL }
    } else if current == RECOVERY_DRAIN_ONLY {
        if open_interest == 0 { RECOVERY_RESET_PENDING } else { RECOVERY_DRAIN_ONLY }
    } else {
        // ResetPending, and any unknown value, go back to Normal.
        RECOVERY_NORMAL
    }
}

/// One of the three known recovery states.
pub open spec fn is_recovery_state(s: u8) -> bool {
    s == RECOVERY_NORMAL || s == RECOVERY_DRAIN_ONLY || s == RECOVERY_RESET_PENDING
}

/// Transition function of the recovery state machine.
pub fn next_state(current: u8, a: i128, open_interest: u64) -> (next: u8)
    ensures
        next == spec_next_state(current, a, open_interest),
        is_recovery_state(next),
{
    if current == RECOVERY_NORMAL {
        // |i128::MIN| = 2^127 is above the floor, so only values with a
        // representable negation can be below it.
        let below_floor = if a == i128::MIN {
            false
        } else if a < 0 {
            -a < A_PRECISION_FLOOR
        } else {
            a < A_PRECISION_FLOOR
        };
        if below_floor {
            RECOVERY_DRAIN_ONLY
        } else {
            RECOVERY_NORMAL
        }
    } else if current == RECOVERY_DRAIN_ONLY {
        if open_interest == 0 {
            RECOVERY_RESET_PENDING
        } else {
            RECOVERY_DRAIN_ONLY
        }
    } else {
        RECOVERY_NORMAL
    }
}

/// Whether opening a position is allowed: only in `Normal`.
pub fn opens_allowed(recovery_state: u8) -> (r: bool)
    ensures
        r == (recovery_state == RECOVERY_NORMAL),
{
    recovery_state == RECOVERY_NORMAL
}

/// The reset performed on `ResetPending → Normal`.
pub struct ResetOutcome {
    pub new_a: i128,
    pub new_epoch_inc: u64,
}

/// A returns to 1.0 and the epoch is bumped (saturating at `u64::MAX`).
pub fn reset_indices(prior_epoch: u64) -> (r: ResetOutcome)
    ensures
        r.new_a == FIXED_POINT_ONE,
        r.new_epoch_inc == (if prior_epoch == u64::MAX { u64::MAX as int } else { prior_epoch + 1 }),
{
    ResetOutcome { new_a: FIXED_POINT_ONE, new_epoch_inc: prior_epoch.saturating_add(1) }
}

/// The recovery cycle: each check moves at most one stage along
/// `Normal → DrainOnly → ResetPending → Normal`, never skips a stage, and
/// never reaches a state from which opens are allowed other than `Normal`.
/// An A of magnitude at least the floor keeps `Normal`; open interest
/// keeps `DrainOnly`.
pub proof fn lemma_recovery_cycle(current: u8, a: i128, open_interest: u64)
    requires
        is_recovery_state(current),
    ensures
        ({
            let next = spec_next_state(current, a, open_interest);
            &&& current == RECOVERY_NORMAL ==> (next == RECOVERY_NORMAL || next == RECOVERY_DRAIN_ONLY)
            &&& current == RECOVERY_DRAIN_ONLY ==> (next == RECOVERY_DRAIN_ONLY || next == RECOVERY_RESET_PENDING)
            &&& current == RECOVERY_RESET_PENDING ==> next == RECOVERY_NORMAL
            &&& (current == RECOVERY_NORMAL && A_PRECISION_FLOOR <= abs_int(a)) ==> next == RECOVERY_NORMAL
            &&& (current == RECOVERY_DRAIN_ONLY && open_interest > 0) ==> next == RECOVERY_DRAIN_ONLY
        }),
{
}

/// From `DrainOnly` with no open interest, two checks bring the system
/// back to `Normal` (through `ResetPending`), whatever A is.
pub proof fn lemma_drain_to_normal(a1: i128, a2: i128, oi2: u64)
    ensures
        spec_next_state(spec_next_state(RECOVERY_DRAIN_ONLY, a1, 0), a2, oi2) == RECOVERY_NORMAL,
{
}

} // verus!
