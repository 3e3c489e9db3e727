use perp_router::constants::FIXED_POINT_ONE;
use perp_router::risk::side_index::{apply_shortfall, effective_size, position_funding_owed};

#[test]
fn effective_size_at_unity_is_identity() {
    assert_eq!(effective_size(1_000, FIXED_POINT_ONE).unwrap(), 1_000);
    assert_eq!(effective_size(-5_000, FIXED_POINT_ONE).unwrap(), -5_000);
}

#[test]
fn effective_size_scales_down() {
    // A = 0.5
    let a = FIXED_POINT_ONE / 2;
    assert_eq!(effective_size(1_000, a).unwrap(), 500);
}

#[test]
fn apply_shortfall_proportional_shrink() {
    // OI = 1000, shortfall = 20 → 2% loss
    // A starts at 1.0, becomes 0.98
    let (a_new, b_new) =
        apply_shortfall(FIXED_POINT_ONE, 0, 20, 1_000).unwrap();
    assert_eq!(a_new, FIXED_POINT_ONE * 980 / 1000);
    assert_eq!(b_new, 20);
}

#[test]
fn apply_shortfall_composes_with_prior_a() {
    // Two consecutive 2% shortfalls should compound: A ≈ 0.98^2 ≈ 0.9604
    let (a1, _) = apply_shortfall(FIXED_POINT_ONE, 0, 20, 1_000).unwrap();
    let (a2, _) = apply_shortfall(a1, 0, 20, 1_000).unwrap();
    // 0.9604 * 1e18 == 960_400_000_000_000_000
    assert_eq!(a2, 960_400_000_000_000_000);
}

#[test]
fn apply_shortfall_total_insolvency_clamps_to_zero() {
    let (a, b) = apply_shortfall(FIXED_POINT_ONE, 0, 100, 100).unwrap();
    assert_eq!(a, 0);
    assert_eq!(b, 100);
}

#[test]
fn apply_shortfall_zero_oi_books_loss_only() {
    let (a, b) =
        apply_shortfall(FIXED_POINT_ONE / 2, 50, 30, 0).unwrap();
    assert_eq!(a, 0);
    assert_eq!(b, 80);
}

#[test]
fn position_funding_owed_basic() {
    // size = 100, dF = 0.01 → owed = 1
    let dt_f = FIXED_POINT_ONE / 100;
    let entry = 0i128;
    let current = entry + dt_f;
    assert_eq!(
        position_funding_owed(100, current, entry).unwrap(),
        1
    );
}
