use perp_router::risk::envelope::safe_oracle_read;

#[test]
fn no_change_passes_through() {
    let got = safe_oracle_read(100_000, 100_000, 1, 50).unwrap();
    assert_eq!(got, 100_000);
}

#[test]
fn small_move_within_cap_passes_through() {
    // 50 bps of 100_000 = 500
    let got = safe_oracle_read(100_400, 100_000, 1, 50).unwrap();
    assert_eq!(got, 100_400);
}

#[test]
fn upward_move_above_cap_clamps() {
    // raw = 2x last_price, way above 50 bps cap = 500
    let got = safe_oracle_read(200_000, 100_000, 1, 50).unwrap();
    assert_eq!(got, 100_500);
}

#[test]
fn downward_move_above_cap_clamps() {
    // raw = 0, way below 50 bps cap = 500
    let got = safe_oracle_read(0, 100_000, 1, 50).unwrap();
    assert_eq!(got, 99_500);
}

#[test]
fn elapsed_slots_widens_cap() {
    // 10 slots * 50 bps of 100_000 = 5000
    let got = safe_oracle_read(110_000, 100_000, 10, 50).unwrap();
    assert_eq!(got, 105_000);
}

#[test]
fn zero_elapsed_slots_treated_as_one() {
    let got = safe_oracle_read(200_000, 100_000, 0, 50).unwrap();
    assert_eq!(got, 100_500);
}

#[test]
fn cold_start_accepts_anything() {
    let got = safe_oracle_read(123_456_789, 0, 1, 50).unwrap();
    assert_eq!(got, 123_456_789);
}
