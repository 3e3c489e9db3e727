use perp_router::constants::{A_PRECISION_FLOOR, FIXED_POINT_ONE};
use perp_router::risk::recovery::{next_state, opens_allowed, reset_indices};
use perp_router::state::global::{RECOVERY_DRAIN_ONLY, RECOVERY_NORMAL, RECOVERY_RESET_PENDING};

#[test]
fn normal_with_healthy_a_stays_normal() {
    assert_eq!(
        next_state(RECOVERY_NORMAL, FIXED_POINT_ONE, 100),
        RECOVERY_NORMAL
    );
}

#[test]
fn normal_with_a_below_floor_goes_drain_only() {
    let bad_a = A_PRECISION_FLOOR - 1;
    assert_eq!(
        next_state(RECOVERY_NORMAL, bad_a, 100),
        RECOVERY_DRAIN_ONLY
    );
}

#[test]
fn drain_only_with_oi_stays_drain_only() {
    assert_eq!(
        next_state(RECOVERY_DRAIN_ONLY, 0, 1),
        RECOVERY_DRAIN_ONLY
    );
}

#[test]
fn drain_only_with_zero_oi_goes_reset_pending() {
    assert_eq!(
        next_state(RECOVERY_DRAIN_ONLY, 0, 0),
        RECOVERY_RESET_PENDING
    );
}

#[test]
fn reset_pending_goes_normal() {
    assert_eq!(
        next_state(RECOVERY_RESET_PENDING, 0, 0),
        RECOVERY_NORMAL
    );
}

#[test]
fn opens_only_in_normal() {
    assert!(opens_allowed(RECOVERY_NORMAL));
    assert!(!opens_allowed(RECOVERY_DRAIN_ONLY));
    assert!(!opens_allowed(RECOVERY_RESET_PENDING));
}

#[test]
fn reset_bumps_a_and_epoch() {
    let r = reset_indices(7);
    assert_eq!(r.new_a, FIXED_POINT_ONE);
    assert_eq!(r.new_epoch_inc, 8);
}

#[test]
fn normal_with_most_negative_a_stays_normal() {
    assert_eq!(next_state(RECOVERY_NORMAL, i128::MIN, 0), RECOVERY_NORMAL);
    assert_eq!(next_state(RECOVERY_NORMAL, -FIXED_POINT_ONE, 0), RECOVERY_NORMAL);
    assert_eq!(next_state(RECOVERY_NORMAL, -(A_PRECISION_FLOOR - 1), 0), RECOVERY_DRAIN_ONLY);
}
