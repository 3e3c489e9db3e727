use perp_router::risk::warmup::{push_reserve, sweep_matured};
use perp_router::state::trader_account::{ReserveEntry, MAX_RESERVE_ENTRIES};

fn empty() -> ([ReserveEntry; MAX_RESERVE_ENTRIES], u8) {
    ([ReserveEntry::default(); MAX_RESERVE_ENTRIES], 0)
}

#[test]
fn push_grows_until_full() {
    let (mut r, mut l) = empty();
    for i in 0..MAX_RESERVE_ENTRIES {
        push_reserve(&mut r, &mut l, 10, i as u64 + 100).unwrap();
    }
    assert_eq!(l as usize, MAX_RESERVE_ENTRIES);
    // One more push drops the oldest, len stays capped.
    push_reserve(&mut r, &mut l, 99, 999).unwrap();
    assert_eq!(l as usize, MAX_RESERVE_ENTRIES);
    assert_eq!(r[MAX_RESERVE_ENTRIES - 1].amount, 99);
    assert_eq!(r[MAX_RESERVE_ENTRIES - 1].mature_slot, 999);
}

#[test]
fn zero_amount_is_no_op() {
    let (mut r, mut l) = empty();
    push_reserve(&mut r, &mut l, 0, 100).unwrap();
    assert_eq!(l, 0);
}

#[test]
fn sweep_returns_only_matured() {
    let (mut r, mut l) = empty();
    push_reserve(&mut r, &mut l, 100, 50).unwrap(); // mature at 50
    push_reserve(&mut r, &mut l, 200, 150).unwrap(); // not yet
    push_reserve(&mut r, &mut l, 300, 50).unwrap(); // mature at 50
    let m = sweep_matured(&mut r, &mut l, 100);
    assert_eq!(m, 400);
    assert_eq!(l, 1);
    assert_eq!(r[0].amount, 200);
    assert_eq!(r[0].mature_slot, 150);
}

#[test]
fn sweep_nothing_returns_zero() {
    let (mut r, mut l) = empty();
    push_reserve(&mut r, &mut l, 100, 1000).unwrap();
    assert_eq!(sweep_matured(&mut r, &mut l, 100), 0);
    assert_eq!(l, 1);
}

#[test]
fn sweep_clears_tail_to_zero() {
    let (mut r, mut l) = empty();
    push_reserve(&mut r, &mut l, 100, 50).unwrap();
    push_reserve(&mut r, &mut l, 200, 50).unwrap();
    sweep_matured(&mut r, &mut l, 100);
    assert_eq!(l, 0);
    for e in r.iter() {
        assert_eq!(e.amount, 0);
        assert_eq!(e.mature_slot, 0);
    }
}

#[test]
fn push_returns_the_new_length() {
    let (mut r, mut l) = empty();
    assert_eq!(push_reserve(&mut r, &mut l, 0, 100), Ok(0));
    assert_eq!(push_reserve(&mut r, &mut l, 5, 100), Ok(1));
    assert_eq!(push_reserve(&mut r, &mut l, 6, 101), Ok(2));
    assert_eq!(l, 2);
    for i in 2..MAX_RESERVE_ENTRIES {
        assert_eq!(push_reserve(&mut r, &mut l, 7, i as u64), Ok(i as u8 + 1));
    }
    assert_eq!(push_reserve(&mut r, &mut l, 8, 999), Ok(MAX_RESERVE_ENTRIES as u8));
}
