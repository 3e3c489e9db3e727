use perp_router::risk::haircut::{apply_h, compute_h, split_withdrawal};

#[test]
fn healthy_pool_returns_full_payout() {
    // V=10M, C=8M, I=200k, PnL_owed=1M → Residual=1.8M, capped at 1M.
    // h = 1M / 1M = 1.0
    let (n, d) = compute_h(10_000_000, 8_000_000, 200_000, 1_000_000);
    assert_eq!(n, 1_000_000);
    assert_eq!(d, 1_000_000);
    assert_eq!(apply_h(100_000, n, d).unwrap(), 100_000);
}

#[test]
fn shortfall_pool_scales_payout() {
    // V=10M, C=2M, I=200k, PnL_owed=8M → Residual=7.8M.
    // h = 7.8M / 8M = 0.975
    let (n, d) = compute_h(10_000_000, 2_000_000, 200_000, 8_000_000);
    assert_eq!(n, 7_800_000);
    assert_eq!(d, 8_000_000);
    assert_eq!(apply_h(100_000, n, d).unwrap(), 97_500);
}

#[test]
fn empty_pnl_no_haircut() {
    // total_matured_PnL = 0 → h = 1.0 (collateral-only withdrawal)
    let (n, d) = compute_h(10_000_000, 8_000_000, 200_000, 0);
    assert_eq!((n, d), (1, 1));
    assert_eq!(apply_h(50_000, n, d).unwrap(), 50_000);
}

#[test]
fn underwater_pool_zero_pnl_payout() {
    // V < C + I → Residual = 0 → h = 0
    let (n, d) = compute_h(1_000_000, 5_000_000, 200_000, 1_000_000);
    assert_eq!(n, 0);
    assert_eq!(d, 1_000_000);
    assert_eq!(apply_h(100_000, n, d).unwrap(), 0);
}

#[test]
fn split_withdrawal_senior_collateral_full_junior_pnl_haircut() {
    let (n, d) = compute_h(10_000_000, 2_000_000, 200_000, 8_000_000);
    let (c, p, total) = split_withdrawal(2_000_000, 100_000, n, d).unwrap();
    assert_eq!(c, 2_000_000); // collateral full
    assert_eq!(p, 97_500); // PnL 97.5%
    assert_eq!(total, 2_097_500);
}

#[test]
fn apply_h_zero_den_errors() {
    assert!(apply_h(100, 0, 0).is_err());
}
