//! PlaceOrderPerp — settles matching-engine fills on both taker and maker
//! trader accounts, and reserves margin for the posted remainder.
//!
//! Per fill, `apply_fill_to_position` dispatches by case:
//!   * OPEN / SCALE-UP (same sign or first entry): VWAP-blend the fill into
//!     the market's position and take margin from its source (taker → free
//!     collateral; maker → its resting-order reservation).
//!   * CLOSE (opposite sign, |fill| ≤ |position|): realize PnL on the
//!     closed part (profit → PnL reserve with warmup, loss → collateral)
//!     and release the proportional locked margin to collateral.
//!   * FLIP (opposite sign, |fill| > |position|): close fully, then open the
//!     remainder in the other direction at the fill price.

use vstd::prelude::*;

use crate::constants::{MAX_POSITIONS, WARMUP_SLOTS};
use crate::instructions::direct_close_position::mature_slot_of;
use crate::cpi::phoenix::Side;
use crate::error::{PerpRouterError, ProgramError};
use crate::risk::margin::spec_quote_lots_to_margin;
use crate::risk::warmup::{push_reserve, spec_push_reserve};
use crate::state::bytes::{key_eq, Pubkey};
use crate::validation::loaders::{find_trader_account_address, found_address_is, is_pda_of, program_address, trader_account_seeds};
use crate::state::trader_account::{
    empty_position_view, trader_wf, Position, PositionView, ReserveEntry, TraderAccount, TraderView, MAX_RESERVE_ENTRIES,
};

verus! {

/// Instruction parameters of PlaceOrderPerp.
pub struct PlaceOrderPerpParams {
    pub side: u8,
    pub price_in_ticks: u64,
    pub num_base_lots: u64,
    pub client_order_id: u128,
}

/// Where the margin for a fill comes from: a taker pays from free
/// collateral, a maker consumes the reservation of its resting order.
#[derive(Copy, Clone, PartialEq, Eq, Structural)]
pub enum MarginSource {
    FreeCollateral,
    LockedMargin,
}

/// `quote_notional × 10_000 / max_leverage_bps`.
pub fn notional_to_margin(quote_notional: u64, max_leverage_bps: u32) -> (r: Result<u64, ProgramError>)
    ensures
        r == spec_quote_lots_to_margin(quote_notional, max_leverage_bps),
{
    if max_leverage_bps == 0 {
        return Err(ProgramError::InvalidAccountData);
    }
    match quote_notional.checked_mul(10_000) {
        Some(n) => Ok(n / (max_leverage_bps as u64)),
        None => Err(ProgramError::Custom(PerpRouterError::MathOverflow)),
    }
}

/// Index of the first position in `ps` for `market`, or -1.
pub open spec fn find_position(ps: Seq<PositionView>, market: Seq<u8>) -> int
    decreases ps.len(),
{
    if ps.len() == 0 {
        -1
    } else {
        let r = find_position(ps.drop_last(), market);
        if r >= 0 {
            r
        } else if ps.last().market == market {
            ps.len() - 1
        } else {
            -1
        }
    }
}

/// A fresh position for `market`.
pub open spec fn new_position_view(market: Seq<u8>) -> PositionView {
    PositionView { market, ..empty_position_view() }
}

/// The account and slot after [`position_slot`].
pub open spec fn spec_position_slot(v: TraderView, market: Seq<u8>) -> Result<(TraderView, int), ProgramError> {
    let i = find_position(v.positions.take(v.positions_len as int), market);
    if i >= 0 {
        Ok((v, i))
    } else if v.positions_len >= MAX_POSITIONS {
        Err(ProgramError::Custom(PerpRouterError::PositionTableFull))
    } else {
        let n = v.positions_len as int;
        Ok((TraderView {
            positions: v.positions.update(n, new_position_view(market)),
            positions_len: (n + 1) as u8,
            ..v
        }, n))
    }
}

pub proof fn lemma_find_position_bounds(ps: Seq<PositionView>, market: Seq<u8>)
    ensures
        -1 <= find_position(ps, market) < ps.len(),
        find_position(ps, market) >= 0 ==> ps[find_position(ps, market)].market == market,
    decreases ps.len(),
{
    if ps.len() > 0 {
        lemma_find_position_bounds(ps.drop_last(), market);
    }
}

/// Slot of `market` in the position table, allocating a fresh slot at the
/// end when the market has none. Errors with `PositionTableFull` when a
/// slot is needed and the table is full.
pub fn position_slot(t: &mut TraderAccount, market: &Pubkey) -> (r: Result<usize, ProgramError>)
    requires
        trader_wf(*old(t)),
    ensures
        match spec_position_slot(old(t)@, market@) {
            Ok(res) => r is Ok && res == (final(t)@, r->Ok_0 as int),
            Err(e) => r == Err::<usize, ProgramError>(e) && *final(t) == *old(t),
        },
        trader_wf(*final(t)),
        r is Ok ==> r->Ok_0 < final(t).positions_len,
{
    let ghost v = t@;
    let ghost live = v.positions.take(v.positions_len as int);
    let len = t.positions_len as usize;
    let mut i: usize = 0;
    while i < len
        invariant
            0 <= i <= len <= MAX_POSITIONS,
            trader_wf(*old(t)),
            len == t.positions_len,
            *t == *old(t),
            v == old(t)@,
            live == v.positions.take(len as int),
            find_position(live.take(i as int), market@) == -1,
        decreases len - i,
    {
        assert(live.take(i + 1).drop_last() =~= live.take(i as int));
        if key_eq(&t.positions[i].market, market) {
            proof { lemma_find_position_bounds(live.take(i as int), market@); }
            assert(find_position(live.take(i + 1), market@) == i);
            assert(live.take(i + 1) =~= live.take(len as int).take(i + 1));
            proof { lemma_find_prefix(live, i as int, market@); }
            return Ok(i);
        }
        i = i + 1;
    }
    assert(live.take(len as int) =~= live);
    if len >= MAX_POSITIONS {
        return Err(ProgramError::Custom(PerpRouterError::PositionTableFull));
    }
    let mut p = Position::empty();
    p.market = *market;
    let ghost before = t.positions@;
    t.positions[len] = p;
    t.positions_len = t.positions_len + 1;
    proof {
        assert(t.positions@ == before.update(len as int, p));
        assert(t.positions@.map_values(|q: Position| q@) =~= v.positions.update(len as int, new_position_view(market@)));
    }
    Ok(len)
}

/// A hit at index `i` of a prefix is the first hit of the whole sequence.
proof fn lemma_find_prefix(ps: Seq<PositionView>, i: int, market: Seq<u8>)
    requires
        0 <= i < ps.len(),
        find_position(ps.take(i + 1), market) == i,
    ensures
        find_position(ps, market) == i,
    decreases ps.len(),
{
    if ps.len() > i + 1 {
        assert(ps.drop_last().take(i + 1) =~= ps.take(i + 1));
        lemma_find_prefix(ps.drop_last(), i, market);
    } else {
        assert(ps.take(i + 1) =~= ps);
    }
}


/// `|x|`.
pub open spec fn abs_int(x: int) -> int {
    if x < 0 { -x } else { x }
}

/// Whether a fill of `signed_size` adds to a position of size `old`
/// (rather than reducing it).
pub open spec fn is_same_sign(old: i64, signed_size: i64) -> bool {
    old == 0 || ((old > 0) == (signed_size > 0))
}

/// Size-weighted average of the old entry price and the fill price.
pub open spec fn vwap(old_abs: int, entry: int, added_abs: int, fill: int) -> int {
    if old_abs == 0 {
        fill
    } else {
        (old_abs * entry + added_abs * fill) / (old_abs + added_abs)
    }
}

/// Open or scale up: the position and the free collateral after the fill.
pub open spec fn spec_open_step(
    pos: PositionView,
    collateral: u64,
    signed_size: i64,
    fill_price: u64,
    fill_margin: u64,
    taker: bool,
) -> Result<(PositionView, u64), ProgramError> {
    let new_size = pos.size_stored + signed_size;
    if taker && collateral < fill_margin {
        Err(ProgramError::Custom(PerpRouterError::InsufficientCollateral))
    } else if !(i64::MIN <= new_size <= i64::MAX) {
        Err(ProgramError::Custom(PerpRouterError::MathOverflow))
    } else if pos.margin_locked + fill_margin > u64::MAX {
        Err(ProgramError::Custom(PerpRouterError::MathOverflow))
    } else {
        Ok((
            PositionView {
                entry_price: vwap(abs_int(pos.size_stored as int), pos.entry_price as int,
                    abs_int(signed_size as int), fill_price as int) as u64,
                size_stored: new_size as i64,
                margin_locked: (pos.margin_locked + fill_margin) as u64,
                ..pos
            },
            if taker { (collateral - fill_margin) as u64 } else { collateral },
        ))
    }
}

/// The part of a position closed by an opposite fill.
pub open spec fn closed_size(old: i64, signed_size: i64) -> int {
    if abs_int(old as int) <= abs_int(signed_size as int) { abs_int(old as int) } else { abs_int(signed_size as int) }
}

/// PnL realized on the closed part: long gains when the fill is above
/// entry, short gains when it is below.
pub open spec fn realized_pnl(pos: PositionView, signed_size: i64, fill_price: u64) -> int {
    let per_unit = if pos.size_stored > 0 {
        fill_price - pos.entry_price
    } else {
        pos.entry_price - fill_price
    };
    per_unit * closed_size(pos.size_stored, signed_size)
}

/// Locked margin released in proportion to the closed part.
pub open spec fn released_margin(pos: PositionView, signed_size: i64) -> int {
    let old_abs = abs_int(pos.size_stored as int);
    (pos.margin_locked * closed_size(pos.size_stored, signed_size)) / (if old_abs > 1 { old_abs } else { 1 })
}

/// Close (and possibly flip): the position, the free collateral, and the
/// realized PnL after the fill.
pub open spec fn spec_close_step(
    pos: PositionView,
    collateral: u64,
    signed_size: i64,
    fill_price: u64,
    fill_margin: u64,
    taker: bool,
) -> Result<(PositionView, u64, int), ProgramError> {
    let old_abs = abs_int(pos.size_stored as int);
    let fill_abs = abs_int(signed_size as int);
    let released = released_margin(pos, signed_size);
    let c1 = collateral + released;
    let pnl = realized_pnl(pos, signed_size, fill_price);
    let new_size = pos.size_stored + signed_size;
    if c1 > u64::MAX {
        Err(ProgramError::Custom(PerpRouterError::MathOverflow))
    } else {
        let loss = (-pnl) as u64;
        let c2: u64 = if pnl < 0 { if c1 >= loss { (c1 - loss) as u64 } else { 0 } } else { c1 as u64 };
        if !(i64::MIN <= new_size <= i64::MAX) {
            Err(ProgramError::Custom(PerpRouterError::MathOverflow))
        } else if new_size == 0 {
            Ok((PositionView { size_stored: 0, entry_price: 0, margin_locked: 0, ..pos }, c2, pnl))
        } else if fill_abs > old_abs {
            let leftover_margin = ((fill_margin * (fill_abs - old_abs)) / fill_abs) as u64;
            if taker && c2 < leftover_margin {
                Err(ProgramError::Custom(PerpRouterError::InsufficientCollateral))
            } else {
                Ok((
                    PositionView {
                        size_stored: new_size as i64,
                        entry_price: fill_price,
                        margin_locked: leftover_margin,
                        ..pos
                    },
                    if taker { (c2 - leftover_margin) as u64 } else { c2 },
                    pnl,
                ))
            }
        } else {
            Ok((
                PositionView {
                    size_stored: new_size as i64,
                    margin_locked: (pos.margin_locked - released) as u64,
                    ..pos
                },
                c2,
                pnl,
            ))
        }
    }
}

/// Drop slot `i` by moving the last live position into it and clearing
/// the last slot.
pub open spec fn spec_compact(v: TraderView, i: int) -> TraderView {
    let last = if v.positions_len > 0 { v.positions_len - 1 } else { 0 };
    let moved = if i != last { v.positions.update(i, v.positions[last]) } else { v.positions };
    TraderView {
        positions: moved.update(last, empty_position_view()),
        positions_len: last as u8,
        ..v
    }
}

/// The trader account after [`apply_fill_to_position`].
pub open spec fn spec_apply_fill(
    v: TraderView,
    market: Seq<u8>,
    signed_size: i64,
    fill_price: u64,
    fill_margin: u64,
    source: MarginSource,
    current_slot: u64,
) -> Result<TraderView, ProgramError> {
    let maker = source == MarginSource::LockedMargin;
    if maker && v.locked_margin < fill_margin {
        Err(ProgramError::Custom(PerpRouterError::MathOverflow))
    } else {
        let v1 = if maker { TraderView { locked_margin: (v.locked_margin - fill_margin) as u64, ..v } } else { v };
        match spec_position_slot(v1, market) {
            Err(e) => Err(e),
            Ok((v2, i)) => {
                let pos = v2.positions[i];
                if is_same_sign(pos.size_stored, signed_size) {
                    match spec_open_step(pos, v2.collateral, signed_size, fill_price, fill_margin, !maker) {
                        Err(e) => Err(e),
                        Ok((p2, c2)) => Ok(TraderView { positions: v2.positions.update(i, p2), collateral: c2, ..v2 }),
                    }
                } else {
                    match spec_close_step(pos, v2.collateral, signed_size, fill_price, fill_margin, !maker) {
                        Err(e) => Err(e),
                        Ok((p2, c2, pnl)) => {
                            let mature = if current_slot + WARMUP_SLOTS > u64::MAX {
                                u64::MAX
                            } else {
                                (current_slot + WARMUP_SLOTS) as u64
                            };
                            let pushed = if pnl > 0 {
                                spec_push_reserve(v2.pnl_reserve, v2.pnl_reserve_len, pnl as u64, mature)
                            } else {
                                (v2.pnl_reserve, v2.pnl_reserve_len)
                            };
                            let v3 = TraderView {
                                positions: v2.positions.update(i, p2),
                                collateral: c2,
                                pnl_reserve: pushed.0,
                                pnl_reserve_len: pushed.1,
                                ..v2
                            };
                            if p2.size_stored == 0 { Ok(spec_compact(v3, i)) } else { Ok(v3) }
                        },
                    }
                }
            },
        }
    }
}

/// `|x|` as a `u64`.
pub fn abs_i64(x: i64) -> (r: u64)
    ensures
        r == abs_int(x as int),
{
    if x < 0 {
        (0i128 - (x as i128)) as u64
    } else {
        x as u64
    }
}

/// Settle one fill of `signed_size` base lots at `fill_price` into the
/// trader's position for `market`, moving margin between free collateral,
/// the resting-order reservation and the position as the case requires,
/// and realizing PnL on a closed part. A position closed to zero is
/// dropped from the table. On error the account is unchanged.
pub fn apply_fill_to_position(
    t: &mut TraderAccount,
    market: &Pubkey,
    signed_size: i64,
    fill_price: u64,
    fill_margin: u64,
    source: MarginSource,
    current_slot: u64,
) -> (r: Result<(), ProgramError>)
    requires
        trader_wf(*old(t)),
    ensures
        match spec_apply_fill(old(t)@, market@, signed_size, fill_price, fill_margin, source, current_slot) {
            Ok(v) => r is Ok && final(t)@ == v,
            Err(e) => r == Err::<(), ProgramError>(e) && *final(t) == *old(t),
        },
        trader_wf(*final(t)),
{
    let ghost v = t@;
    let mut w = *t;
    if source == MarginSource::LockedMargin {
        if w.locked_margin < fill_margin {
            return Err(ProgramError::Custom(PerpRouterError::MathOverflow));
        }
        w.locked_margin = w.locked_margin - fill_margin;
    }
    let ghost v1 = w@;
    let slot = match position_slot(&mut w, market) {
        Ok(i) => i,
        Err(e) => { return Err(e); },
    };
    let ghost v2 = w@;
    assert(v1 == (if source == MarginSource::LockedMargin {
        TraderView { locked_margin: (v.locked_margin - fill_margin) as u64, ..v }
    } else {
        v
    }));
    assert(spec_position_slot(v1, market@) == Ok::<(TraderView, int), ProgramError>((v2, slot as int)));
    let taker = source == MarginSource::FreeCollateral;
    let mut pos = w.positions[slot];
    assert(pos@ == v2.positions[slot as int]);
    let old = pos.size_stored;
    let same_sign = old == 0 || ((old > 0) == (signed_size > 0));
    let mut became_zero = false;
    if same_sign {
        if taker {
            if w.collateral < fill_margin {
                return Err(ProgramError::Custom(PerpRouterError::InsufficientCollateral));
            }
            w.collateral = w.collateral - fill_margin;
        }
        let old_abs: u128 = abs_i64(old) as u128;
        let added_abs: u128 = abs_i64(signed_size) as u128;
        let entry: u128 = pos.entry_price as u128;
        let fill: u128 = fill_price as u128;
        let new_entry: u64 = if old_abs == 0 {
            fill_price
        } else {
            proof { lemma_vwap_bounds(old_abs as int, entry as int, added_abs as int, fill as int); }
            let num: u128 = old_abs * entry + added_abs * fill;
            let den: u128 = old_abs + added_abs;
            (num / den) as u64
        };
        let new_size = match old.checked_add(signed_size) {
            Some(n) => n,
            None => { return Err(ProgramError::Custom(PerpRouterError::MathOverflow)); },
        };
        let new_margin = match pos.margin_locked.checked_add(fill_margin) {
            Some(m) => m,
            None => { return Err(ProgramError::Custom(PerpRouterError::MathOverflow)); },
        };
        pos.entry_price = new_entry;
        pos.size_stored = new_size;
        pos.margin_locked = new_margin;
    } else {
        let old_abs: u64 = abs_i64(old);
        let fill_abs: u64 = abs_i64(signed_size);
        let closed: u64 = if old_abs <= fill_abs { old_abs } else { fill_abs };
        let per_unit: i128 = if old > 0 {
            (fill_price as i128) - (pos.entry_price as i128)
        } else {
            (pos.entry_price as i128) - (fill_price as i128)
        };
        proof { lemma_pnl_fits(per_unit as int, closed as int); }
        let pnl_raw: i128 = per_unit * (closed as i128);
        let den: u128 = if old_abs > 1 { old_abs as u128 } else { 1 };
        proof {
            lemma_release_bounds(pos.margin_locked as int, closed as int, den as int);
        }
        let released: u64 = (((pos.margin_locked as u128) * (closed as u128)) / den) as u64;
        let margin_after_release: u64 = pos.margin_locked - released;
        w.collateral = match w.collateral.checked_add(released) {
            Some(c) => c,
            None => { return Err(ProgramError::Custom(PerpRouterError::MathOverflow)); },
        };
        if pnl_raw > 0 {
            let _ = push_reserve(
                &mut w.pnl_reserve,
                &mut w.pnl_reserve_len,
                pnl_raw as u64,
                current_slot.saturating_add(WARMUP_SLOTS),
            );
        } else if pnl_raw < 0 {
            let loss: u64 = (0i128 - pnl_raw) as u64;
            w.collateral = w.collateral.saturating_sub(loss);
        }
        let new_size = match old.checked_add(signed_size) {
            Some(n) => n,
            None => { return Err(ProgramError::Custom(PerpRouterError::MathOverflow)); },
        };
        pos.size_stored = new_size;
        if new_size == 0 {
            pos.entry_price = 0;
            pos.margin_locked = 0;
            became_zero = true;
        } else if fill_abs > old_abs {
            let leftover_abs: u64 = fill_abs - old_abs;
            proof {
                lemma_release_bounds(fill_margin as int, leftover_abs as int, fill_abs as int);
            }
            let leftover_margin: u64 = (((fill_margin as u128) * (leftover_abs as u128)) / (fill_abs as u128)) as u64;
            if taker {
                if w.collateral < leftover_margin {
                    return Err(ProgramError::Custom(PerpRouterError::InsufficientCollateral));
                }
                w.collateral = w.collateral - leftover_margin;
            }
            pos.entry_price = fill_price;
            pos.margin_locked = leftover_margin;
        } else {
            pos.margin_locked = margin_after_release;
        }
    }
    let ghost before_store = w.positions@;
    w.positions[slot] = pos;
    proof {
        assert(w.positions@.map_values(|q: Position| q@) =~= v2.positions.update(slot as int, pos@));
    }
    if became_zero {
        let last: usize = (w.positions_len - 1) as usize;
        let ghost before_move = w.positions@;
        if slot != last {
            let moved = w.positions[last];
            w.positions[slot] = moved;
        }
        w.positions[last] = Position::empty();
        w.positions_len = w.positions_len - 1;
        proof {
            let vv = TraderView { positions: before_move.map_values(|q: Position| q@), ..w@ };
            assert(w.positions@.map_values(|q: Position| q@) =~= spec_compact(
                TraderView { positions: before_move.map_values(|q: Position| q@), positions_len: (w.positions_len + 1) as u8, ..w@ },
                slot as int,
            ).positions);
        }
    }
    *t = w;
    Ok(())
}

/// The VWAP numerator fits in `u128` and the average fits in `u64`.
pub proof fn lemma_vwap_bounds(old_abs: int, entry: int, added_abs: int, fill: int)
    requires
        0 < old_abs <= 0x8000_0000_0000_0000,
        0 <= added_abs <= 0x8000_0000_0000_0000,
        0 <= entry <= u64::MAX,
        0 <= fill <= u64::MAX,
    ensures
        0 <= old_abs * entry + added_abs * fill <= u128::MAX,
        0 <= (old_abs * entry + added_abs * fill) / (old_abs + added_abs) <= u64::MAX,
{
    let m = u64::MAX as int;
    assert(0 <= old_abs * entry <= old_abs * m) by (nonlinear_arith) requires 0 < old_abs, 0 <= entry <= m;
    assert(0 <= added_abs * fill <= added_abs * m) by (nonlinear_arith) requires 0 <= added_abs, 0 <= fill <= m;
    assert(old_abs * m + added_abs * m == (old_abs + added_abs) * m) by (nonlinear_arith);
    assert((old_abs + added_abs) * m <= u128::MAX) by (nonlinear_arith)
        requires old_abs + added_abs <= 0x1_0000_0000_0000_0000int, m == u64::MAX as int;
    vstd::arithmetic::div_mod::lemma_div_is_ordered(old_abs * entry + added_abs * fill, (old_abs + added_abs) * m, old_abs + added_abs);
    vstd::arithmetic::div_mod::lemma_div_multiples_vanish(m, old_abs + added_abs);
    assert((old_abs + added_abs) * m == m * (old_abs + added_abs)) by (nonlinear_arith);
    vstd::arithmetic::div_mod::lemma_div_pos_is_pos(old_abs * entry + added_abs * fill, old_abs + added_abs);
}

/// Realized PnL fits in `i128`.
pub proof fn lemma_pnl_fits(per_unit: int, closed: int)
    requires
        -(u64::MAX as int) <= per_unit <= u64::MAX,
        0 <= closed <= 0x8000_0000_0000_0000,
    ensures
        fits_i128_int(per_unit * closed),
        i128::MIN < per_unit * closed,
{
    assert(fits_i128_int(per_unit * closed) && i128::MIN < per_unit * closed) by (nonlinear_arith)
        requires -(u64::MAX as int) <= per_unit <= u64::MAX, 0 <= closed <= 0x8000_0000_0000_0000int;
}

/// An opening (or scaling-up) fill on the taker side moves the fill's
/// margin from free collateral into the position (their sum is kept), adds
/// the fill to the size, and averages the entry price to a value between
/// the old entry and the fill price.
pub proof fn lemma_open_moves_margin(
    pos: PositionView,
    collateral: u64,
    signed_size: i64,
    fill_price: u64,
    fill_margin: u64,
)
    requires
        spec_open_step(pos, collateral, signed_size, fill_price, fill_margin, true) is Ok,
    ensures
        ({
            let (p2, c2) = spec_open_step(pos, collateral, signed_size, fill_price, fill_margin, true)->Ok_0;
            &&& c2 + p2.margin_locked == collateral + pos.margin_locked
            &&& p2.size_stored == pos.size_stored + signed_size
            &&& pos.size_stored == 0 ==> p2.entry_price == fill_price
            &&& pos.size_stored != 0 ==> p2.entry_price == (abs_int(pos.size_stored as int) * pos.entry_price
                + abs_int(signed_size as int) * fill_price) / (abs_int(pos.size_stored as int) + abs_int(signed_size as int))
            &&& pos.size_stored != 0 ==> {
                ||| pos.entry_price <= p2.entry_price <= fill_price
                ||| fill_price <= p2.entry_price <= pos.entry_price
            }
        }),
{
    let a = abs_int(pos.size_stored as int);
    let b = abs_int(signed_size as int);
    if pos.size_stored != 0 {
        let e = pos.entry_price as int;
        let f = fill_price as int;
        lemma_vwap_bounds(a, e, b, f);
        let lo = if e <= f { e } else { f };
        let hi = if e <= f { f } else { e };
        assert((a + b) * lo <= a * e + b * f <= (a + b) * hi) by (nonlinear_arith)
            requires 0 < a, 0 <= b, lo <= e <= hi, lo <= f <= hi;
        vstd::arithmetic::div_mod::lemma_div_is_ordered((a + b) * lo, a * e + b * f, a + b);
        vstd::arithmetic::div_mod::lemma_div_is_ordered(a * e + b * f, (a + b) * hi, a + b);
        assert((a + b) * lo == lo * (a + b)) by (nonlinear_arith);
        assert((a + b) * hi == hi * (a + b)) by (nonlinear_arith);
        vstd::arithmetic::div_mod::lemma_div_multiples_vanish(lo, a + b);
        vstd::arithmetic::div_mod::lemma_div_multiples_vanish(hi, a + b);
    }
}

/// A fill of exactly the opposite size closes the position: the
/// position is left empty (no size, no margin, no entry price), all of its
/// margin is released to collateral, and the PnL realized is the whole
/// position's move from entry to the fill price.
pub proof fn lemma_full_close_clears(
    pos: PositionView,
    collateral: u64,
    fill_price: u64,
    fill_margin: u64,
    taker: bool,
)
    requires
        pos.size_stored != 0,
        pos.size_stored != i64::MIN,
        spec_close_step(pos, collateral, -pos.size_stored as i64, fill_price, fill_margin, taker) is Ok,
    ensures
        !is_same_sign(pos.size_stored, -pos.size_stored as i64),
        released_margin(pos, -pos.size_stored as i64) == pos.margin_locked,
        ({
            let (p2, _c2, pnl) = spec_close_step(pos, collateral, -pos.size_stored as i64, fill_price, fill_margin, taker)->Ok_0;
            &&& p2.size_stored == 0
            &&& p2.margin_locked == 0
            &&& p2.entry_price == 0
            &&& pnl == (if pos.size_stored > 0 { fill_price - pos.entry_price } else { pos.entry_price - fill_price })
                * abs_int(pos.size_stored as int)
        }),
{
    let s = -pos.size_stored as i64;
    let a = abs_int(pos.size_stored as int);
    assert(abs_int(s as int) == a);
    assert(closed_size(pos.size_stored, s) == a);
    let m = pos.margin_locked as int;
    if a > 1 {
        assert(m * a == a * m) by (nonlinear_arith);
        vstd::arithmetic::div_mod::lemma_div_multiples_vanish(m, a);
        assert((m * a) / a == m);
    } else {
        assert(a == 1);
        assert(m * a == m) by (nonlinear_arith) requires a == 1;
        assert((m * a) / 1int == m);
    }
    assert(released_margin(pos, s) == (m * a) / (if a > 1 { a } else { 1 }));
}

/// A fill against an existing position settles only the part it closes,
/// `min(|old|, |fill|)` lots: the PnL realized is the per-lot move from
/// entry to the fill price (fill − entry for a long, entry − fill for a
/// short) times those lots, and the locked margin released is the same
/// share `closed / |old|` of the position's margin. A gain becomes the
/// newest PnL reserve entry; a loss is taken from collateral (down to
/// zero). A smaller fill leaves the rest of the position at its entry
/// price with the rest of its margin; an equal fill drops the position;
/// a larger one opens the remainder on the other side at the fill price
/// with the remainder's share of the fill margin (taken from collateral
/// on the taker side).
pub proof fn lemma_opposite_fill_realizes_closed_part(
    v: TraderView,
    market: Seq<u8>,
    signed_size: i64,
    fill_price: u64,
    fill_margin: u64,
    source: MarginSource,
    current_slot: u64,
)
    requires
        v.pnl_reserve.len() == MAX_RESERVE_ENTRIES,
        v.pnl_reserve_len <= MAX_RESERVE_ENTRIES,
        v.positions.len() == MAX_POSITIONS,
        v.positions_len <= MAX_POSITIONS,
        ({
            let i = find_position(v.positions.take(v.positions_len as int), market);
            &&& i >= 0
            &&& v.positions[i].size_stored != 0
            &&& signed_size != 0
            &&& (v.positions[i].size_stored > 0) != (signed_size > 0)
        }),
        spec_apply_fill(v, market, signed_size, fill_price, fill_margin, source, current_slot) is Ok,
    ensures
        ({
            let w = spec_apply_fill(v, market, signed_size, fill_price, fill_margin, source, current_slot)->Ok_0;
            let i = find_position(v.positions.take(v.positions_len as int), market);
            let pos = v.positions[i];
            let n = pos.size_stored as int;
            let old_abs = if n < 0 { -n } else { n };
            let fill_abs = if signed_size < 0 { -(signed_size as int) } else { signed_size as int };
            let closed = if fill_abs < old_abs { fill_abs } else { old_abs };
            let per_lot = if n > 0 { fill_price - pos.entry_price } else { pos.entry_price - fill_price };
            let pnl = per_lot * closed;
            let released = (pos.margin_locked * closed) / old_abs;
            let after_pnl = if pnl > 0 {
                v.collateral + released
            } else if v.collateral + released + pnl >= 0 {
                v.collateral + released + pnl
            } else {
                0
            };
            &&& 0 < pnl <= u64::MAX ==> {
                &&& w.pnl_reserve_len == (if v.pnl_reserve_len < MAX_RESERVE_ENTRIES { v.pnl_reserve_len + 1 } else { MAX_RESERVE_ENTRIES as int })
                &&& w.pnl_reserve[w.pnl_reserve_len - 1] == (ReserveEntry { amount: pnl as u64, mature_slot: mature_slot_of(current_slot) })
            }
            &&& -(u64::MAX as int) <= pnl <= 0 ==> w.pnl_reserve == v.pnl_reserve && w.pnl_reserve_len == v.pnl_reserve_len
            &&& -(u64::MAX as int) <= pnl ==> {
                &&& fill_abs < old_abs ==> {
                    &&& w.collateral == after_pnl
                    &&& w.positions_len == v.positions_len
                    &&& w.positions[i].size_stored == n + signed_size
                    &&& w.positions[i].entry_price == pos.entry_price
                    &&& w.positions[i].margin_locked == pos.margin_locked - released
                }
                &&& fill_abs == old_abs ==> w.collateral == after_pnl && w.positions_len == v.positions_len - 1
                &&& fill_abs > old_abs ==> {
                    let leftover = (fill_margin * (fill_abs - old_abs)) / fill_abs;
                    &&& w.collateral == (if source == MarginSource::FreeCollateral { after_pnl - leftover } else { after_pnl })
                    &&& w.positions_len == v.positions_len
                    &&& w.positions[i].size_stored == n + signed_size
                    &&& w.positions[i].entry_price == fill_price
                    &&& w.positions[i].margin_locked == leftover
                }
            }
        }),
{
    let maker = source == MarginSource::LockedMargin;
    let v1 = if maker { TraderView { locked_margin: (v.locked_margin - fill_margin) as u64, ..v } } else { v };
    let i = find_position(v.positions.take(v.positions_len as int), market);
    lemma_find_position_bounds(v.positions.take(v.positions_len as int), market);
    assert(spec_position_slot(v1, market) == Ok::<(TraderView, int), ProgramError>((v1, i)));
    let pos = v1.positions[i];
    let released = released_margin(pos, signed_size);
    let pnl = realized_pnl(pos, signed_size, fill_price);
    crate::instructions::direct_close_position::lemma_book_pnl(
        TraderView { collateral: 0, ..v1 }, pnl, current_slot);
    let old_abs = abs_int(pos.size_stored as int);
    lemma_release_bounds(pos.margin_locked as int, closed_size(pos.size_stored, signed_size), old_abs);
    assert(!is_same_sign(pos.size_stored, signed_size));
    let step = spec_close_step(pos, v1.collateral, signed_size, fill_price, fill_margin, !maker);
    assert(step is Ok);
    let (p2, c2, pnl2) = step->Ok_0;
    assert(pnl2 == pnl);
    let mature = if current_slot + WARMUP_SLOTS > u64::MAX { u64::MAX } else { (current_slot + WARMUP_SLOTS) as u64 };
    assert(mature == mature_slot_of(current_slot));
    let pushed = if pnl > 0 {
        spec_push_reserve(v1.pnl_reserve, v1.pnl_reserve_len, pnl as u64, mature)
    } else {
        (v1.pnl_reserve, v1.pnl_reserve_len)
    };
    let v3 = TraderView {
        positions: v1.positions.update(i, p2),
        collateral: c2,
        pnl_reserve: pushed.0,
        pnl_reserve_len: pushed.1,
        ..v1
    };
    let w = spec_apply_fill(v, market, signed_size, fill_price, fill_margin, source, current_slot)->Ok_0;
    assert(w == (if p2.size_stored == 0 { spec_compact(v3, i) } else { v3 }));
    assert(w.pnl_reserve == v3.pnl_reserve && w.pnl_reserve_len == v3.pnl_reserve_len && w.collateral == v3.collateral);
    let fill_abs = abs_int(signed_size as int);
    if fill_abs > old_abs {
        lemma_release_bounds(fill_margin as int, fill_abs - old_abs, fill_abs);
    }
}

/// Whether `x` fits in an `i128`.
pub open spec fn fits_i128_int(x: int) -> bool {
    i128::MIN <= x <= i128::MAX
}

/// `m × c / d ≤ m` when `c ≤ d`, and the product fits in `u128`.
pub proof fn lemma_release_bounds(m: int, c: int, d: int)
    requires
        0 <= m <= u64::MAX,
        0 <= c <= d,
        1 <= d,
        c <= u64::MAX,
    ensures
        0 <= m * c <= u128::MAX,
        0 <= (m * c) / d <= m,
{
    assert(0 <= m * c <= u128::MAX) by (nonlinear_arith) requires 0 <= m <= u64::MAX, 0 <= c <= u64::MAX;
    crate::risk::haircut::lemma_scale_le(m, c, d);
}


/// The side of an order, and its validity: side byte 0 (bid) or 1 (ask),
/// price and size both positive; `InvalidInstructionData` otherwise.
pub open spec fn spec_check_order(p: PlaceOrderPerpParams) -> Result<Side, ProgramError> {
    if p.side != 0 && p.side != 1 {
        Err(ProgramError::InvalidInstructionData)
    } else if !(p.num_base_lots > 0 && p.price_in_ticks > 0) {
        Err(ProgramError::InvalidInstructionData)
    } else if p.side == 0 {
        Ok(Side::Bid)
    } else {
        Ok(Side::Ask)
    }
}

/// Decode and check the order parameters.
pub fn check_order(p: &PlaceOrderPerpParams) -> (r: Result<Side, ProgramError>)
    ensures
        r == spec_check_order(*p),
{
    let side = if p.side == 0 {
        Side::Bid
    } else if p.side == 1 {
        Side::Ask
    } else {
        return Err(ProgramError::InvalidInstructionData);
    };
    if !(p.num_base_lots > 0 && p.price_in_ticks > 0) {
        return Err(ProgramError::InvalidInstructionData);
    }
    Ok(side)
}

/// Free collateral: collateral not reserved by resting orders.
pub open spec fn free_collateral(v: TraderView) -> int {
    if v.collateral >= v.locked_margin { v.collateral - v.locked_margin } else { 0 }
}

/// What [`check_worst_case_margin`] returns.
pub open spec fn spec_check_worst_case_margin(
    v: TraderView,
    signer: Seq<u8>,
    p: PlaceOrderPerpParams,
    max_leverage_bps: u32,
) -> Result<(), ProgramError> {
    let worst = p.price_in_ticks * p.num_base_lots;
    if worst > u64::MAX {
        Err(ProgramError::Custom(PerpRouterError::MathOverflow))
    } else {
        match spec_quote_lots_to_margin(worst as u64, max_leverage_bps) {
            Err(e) => Err(e),
            Ok(m) => if v.owner != signer {
                Err(ProgramError::Custom(PerpRouterError::InvalidAuthority))
            } else if free_collateral(v) < m {
                Err(ProgramError::Custom(PerpRouterError::InsufficientCollateral))
            } else {
                Ok(())
            },
        }
    }
}

/// Pre-check of an order: the account belongs to the signer, and its free
/// collateral covers the margin of the whole order resting uncrossed
/// (closing fills only release margin, so this over-estimates).
pub fn check_worst_case_margin(
    t: &TraderAccount,
    signer: &Pubkey,
    p: &PlaceOrderPerpParams,
    max_leverage_bps: u32,
) -> (r: Result<(), ProgramError>)
    ensures
        r == spec_check_worst_case_margin(t@, signer@, *p, max_leverage_bps),
{
    let worst = match p.price_in_ticks.checked_mul(p.num_base_lots) {
        Some(w) => w,
        None => { return Err(ProgramError::Custom(PerpRouterError::MathOverflow)); },
    };
    let worst_margin = match notional_to_margin(worst, max_leverage_bps) {
        Ok(m) => m,
        Err(e) => { return Err(e); },
    };
    if !key_eq(&t.owner, signer) {
        return Err(ProgramError::Custom(PerpRouterError::InvalidAuthority));
    }
    let free = t.collateral.saturating_sub(t.locked_margin);
    if free < worst_margin {
        return Err(ProgramError::Custom(PerpRouterError::InsufficientCollateral));
    }
    Ok(())
}

/// The margin of a fill and the signed size it adds to the taker (the
/// maker takes the opposite).
pub open spec fn spec_fill_terms(side: Side, price_in_ticks: u64, base_lots_filled: u64, max_leverage_bps: u32) -> Result<(u64, i64), ProgramError> {
    let notional = price_in_ticks * base_lots_filled;
    if notional > u64::MAX {
        Err(ProgramError::Custom(PerpRouterError::MathOverflow))
    } else {
        match spec_quote_lots_to_margin(notional as u64, max_leverage_bps) {
            Err(e) => Err(e),
            Ok(m) => if base_lots_filled > i64::MAX {
                Err(ProgramError::Custom(PerpRouterError::MathOverflow))
            } else {
                Ok((m, match side {
                    Side::Bid => base_lots_filled as i64,
                    Side::Ask => -(base_lots_filled as int) as i64,
                }))
            },
        }
    }
}

/// Margin and taker-signed size of one fill; a size that does not fit a
/// signed 64-bit position is `MathOverflow`.
pub fn fill_terms(side: Side, price_in_ticks: u64, base_lots_filled: u64, max_leverage_bps: u32) -> (r: Result<(u64, i64), ProgramError>)
    ensures
        r == spec_fill_terms(side, price_in_ticks, base_lots_filled, max_leverage_bps),
{
    let notional = match price_in_ticks.checked_mul(base_lots_filled) {
        Some(n) => n,
        None => { return Err(ProgramError::Custom(PerpRouterError::MathOverflow)); },
    };
    let margin = match notional_to_margin(notional, max_leverage_bps) {
        Ok(m) => m,
        Err(e) => { return Err(e); },
    };
    if base_lots_filled > i64::MAX as u64 {
        return Err(ProgramError::Custom(PerpRouterError::MathOverflow));
    }
    let lots = base_lots_filled as i64;
    let taker_signed: i64 = match side {
        Side::Bid => lots,
        Side::Ask => -lots,
    };
    Ok((margin, taker_signed))
}

/// The trader account after reserving margin for the posted remainder.
pub open spec fn spec_reserve_posted_margin(
    v: TraderView,
    side: Side,
    price_in_ticks: u64,
    base_lots_posted: u64,
    quote_lots_posted: u64,
    max_leverage_bps: u32,
) -> Result<TraderView, ProgramError> {
    let notional = match side {
        Side::Bid => quote_lots_posted as int,
        Side::Ask => price_in_ticks * base_lots_posted,
    };
    if notional > u64::MAX {
        Err(ProgramError::Custom(PerpRouterError::MathOverflow))
    } else {
        match spec_quote_lots_to_margin(notional as u64, max_leverage_bps) {
            Err(e) => Err(e),
            Ok(m) => if m == 0 {
                Ok(v)
            } else if v.locked_margin + m > u64::MAX {
                Err(ProgramError::Custom(PerpRouterError::MathOverflow))
            } else {
                Ok(TraderView { locked_margin: (v.locked_margin + m) as u64, ..v })
            },
        }
    }
}

/// Reserve margin for the part of the order left resting on the book: its
/// quote notional (bids) or base × price (asks), at the market leverage.
/// On error the account is unchanged.
pub fn reserve_posted_margin(
    t: &mut TraderAccount,
    side: Side,
    price_in_ticks: u64,
    base_lots_posted: u64,
    quote_lots_posted: u64,
    max_leverage_bps: u32,
) -> (r: Result<(), ProgramError>)
    ensures
        match spec_reserve_posted_margin(old(t)@, side, price_in_ticks, base_lots_posted, quote_lots_posted, max_leverage_bps) {
            Ok(v) => r is Ok && final(t)@ == v,
            Err(e) => r == Err::<(), ProgramError>(e) && *final(t) == *old(t),
        },
{
    let notional: u64 = match side {
        Side::Bid => quote_lots_posted,
        Side::Ask => match price_in_ticks.checked_mul(base_lots_posted) {
            Some(n) => n,
            None => { return Err(ProgramError::Custom(PerpRouterError::MathOverflow)); },
        },
    };
    let margin = match notional_to_margin(notional, max_leverage_bps) {
        Ok(m) => m,
        Err(e) => { return Err(e); },
    };
    if margin > 0 {
        t.locked_margin = match t.locked_margin.checked_add(margin) {
            Some(l) => l,
            None => { return Err(ProgramError::Custom(PerpRouterError::MathOverflow)); },
        };
    }
    Ok(())
}


/// Index of the live position for `market`, if any.
pub fn find_live_position(t: &TraderAccount, market: &Pubkey) -> (r: Option<usize>)
    requires
        trader_wf(*t),
    ensures
        match r {
            Some(i) => find_position(t@.positions.take(t.positions_len as int), market@) == i,
            None => find_position(t@.positions.take(t.positions_len as int), market@) == -1,
        },
        r is Some ==> r->Some_0 < t.positions_len,
{
    let ghost live = t@.positions.take(t.positions_len as int);
    let len = t.positions_len as usize;
    let mut i: usize = 0;
    while i < len
        invariant
            0 <= i <= len <= MAX_POSITIONS,
            len == t.positions_len,
            live == t@.positions.take(len as int),
            find_position(live.take(i as int), market@) == -1,
        decreases len - i,
    {
        assert(live.take(i + 1).drop_last() =~= live.take(i as int));
        if key_eq(&t.positions[i].market, market) {
            proof { lemma_find_position_bounds(live.take(i as int), market@); }
            assert(find_position(live.take(i + 1), market@) == i);
            proof { lemma_find_prefix(live, i as int, market@); }
            return Some(i);
        }
        i = i + 1;
    }
    assert(live.take(len as int) =~= live);
    None
}

/// Drop live position `i`: the last live position moves into its slot
/// and the last slot is cleared.
pub fn remove_position(t: &mut TraderAccount, i: usize)
    requires
        trader_wf(*old(t)),
        i < old(t).positions_len,
    ensures
        final(t)@ == spec_compact(old(t)@, i as int),
        trader_wf(*final(t)),
{
    let ghost v = t@;
    let last: usize = (t.positions_len - 1) as usize;
    if i != last {
        let moved = t.positions[last];
        t.positions[i] = moved;
    }
    t.positions[last] = Position::empty();
    t.positions_len = t.positions_len - 1;
    assert(t.positions@.map_values(|q: Position| q@) =~= spec_compact(v, i as int).positions);
}

/// Record a fill event: kept while fewer than [`MAX_FILLS_PER_IX`] are
/// held, otherwise dropped and `overflow` set (the order then fails with
/// `TooManyFills`).
pub fn capture_fill(fills: &mut Vec<CapturedFill>, overflow: &mut bool, fill: CapturedFill)
    ensures
        old(fills).len() < MAX_FILLS_PER_IX ==> final(fills)@ == old(fills)@.push(fill) && *final(overflow) == *old(overflow),
        old(fills).len() >= MAX_FILLS_PER_IX ==> final(fills)@ == old(fills)@ && *final(overflow),
{
    if fills.len() < MAX_FILLS_PER_IX {
        fills.push(fill);
    } else {
        *overflow = true;
    }
}

/// `TooManyFills` when fill events were dropped.
pub fn check_fill_overflow(overflow: bool) -> (r: Result<(), ProgramError>)
    ensures
        r == (if overflow { Err(ProgramError::Custom(PerpRouterError::TooManyFills)) } else { Ok(()) }),
{
    if overflow { Err(ProgramError::Custom(PerpRouterError::TooManyFills)) } else { Ok(()) }
}

/// Most fills one order may settle: each fill needs its maker's account
/// among the instruction's accounts.
pub const MAX_FILLS_PER_IX: usize = 8;

/// A fill reported by the matching engine.
#[derive(Copy, Clone, Debug)]
pub struct CapturedFill {
    pub maker_id: Pubkey,
    pub price_in_ticks: u64,
    pub base_lots_filled: u64,
}

/// The slot of the first key in `keys` equal to `key`, if any.
pub open spec fn first_key_slot(keys: Seq<Seq<u8>>, key: Seq<u8>) -> Option<int>
    decreases keys.len(),
{
    if keys.len() == 0 {
        None
    } else {
        match first_key_slot(keys.drop_last(), key) {
            Some(j) => Some(j),
            None => if keys.last() == key { Some(keys.len() - 1) } else { None },
        }
    }
}

/// A slot found is in range and holds the key; a slot found in a prefix
/// is the slot found in the whole.
proof fn lemma_first_key_slot(keys: Seq<Seq<u8>>, n: int, key: Seq<u8>)
    requires
        0 <= n <= keys.len(),
    ensures
        first_key_slot(keys, key) matches Some(j) ==> 0 <= j < keys.len() && keys[j] == key,
        first_key_slot(keys.take(n), key) is Some ==> first_key_slot(keys, key) == first_key_slot(keys.take(n), key),
    decreases keys.len(),
{
    if keys.len() > 0 {
        let shorter = keys.drop_last();
        if n == keys.len() {
            assert(keys.take(n) =~= keys);
            lemma_first_key_slot(shorter, shorter.len() as int, key);
        } else {
            assert(shorter.take(n) =~= keys.take(n));
            lemma_first_key_slot(shorter, n, key);
        }
    } else {
        assert(keys.take(n) =~= keys);
    }
}

/// The slot, among the accounts passed, of the trader account of the
/// maker `maker_id`: the first one at that maker's trader PDA.
pub open spec fn maker_slot(keys: Seq<Seq<u8>>, maker_id: Pubkey, program_id: Pubkey) -> Option<int> {
    match program_address(trader_account_seeds(maker_id@), program_id@) {
        Some(found) => first_key_slot(keys, found.0),
        None => None,
    }
}

/// Settle one fill: its margin and signed size, applied to the taker
/// (margin from free collateral) and, opposite, to the maker's account
/// (margin from its resting-order reservation). The maker's account must
/// be among those passed (`MakerAccountMissing`) and owned by this
/// program or the delegation program (`IllegalOwner`).
pub open spec fn spec_settle_fill(
    taker: TraderView,
    makers: Seq<TraderView>,
    maker_keys: Seq<Seq<u8>>,
    maker_owners: Seq<Seq<u8>>,
    fill: CapturedFill,
    program_id: Pubkey,
    delegation_program: Seq<u8>,
    market: Seq<u8>,
    side: Side,
    max_leverage_bps: u32,
    current_slot: u64,
) -> Result<(TraderView, Seq<TraderView>), ProgramError> {
    match spec_fill_terms(side, fill.price_in_ticks, fill.base_lots_filled, max_leverage_bps) {
        Err(e) => Err(e),
        Ok((margin, signed)) => match spec_apply_fill(taker, market, signed, fill.price_in_ticks, margin,
            MarginSource::FreeCollateral, current_slot) {
            Err(e) => Err(e),
            Ok(t1) => match maker_slot(maker_keys, fill.maker_id, program_id) {
                None => Err(ProgramError::Custom(PerpRouterError::MakerAccountMissing)),
                Some(j) => if maker_owners[j] != program_id@ && maker_owners[j] != delegation_program {
                    Err(ProgramError::IllegalOwner)
                } else {
                    match spec_apply_fill(makers[j], market, -signed as i64, fill.price_in_ticks, margin,
                        MarginSource::LockedMargin, current_slot) {
                        Err(e) => Err(e),
                        Ok(m1) => Ok((t1, makers.update(j, m1))),
                    }
                },
            },
        },
    }
}

/// The fills settled in order; the first error stops the settlement.
pub open spec fn spec_settle_fills(
    taker: TraderView,
    makers: Seq<TraderView>,
    maker_keys: Seq<Seq<u8>>,
    maker_owners: Seq<Seq<u8>>,
    fills: Seq<CapturedFill>,
    program_id: Pubkey,
    delegation_program: Seq<u8>,
    market: Seq<u8>,
    side: Side,
    max_leverage_bps: u32,
    current_slot: u64,
) -> Result<(TraderView, Seq<TraderView>), ProgramError>
    decreases fills.len(),
{
    if fills.len() == 0 {
        Ok((taker, makers))
    } else {
        match spec_settle_fills(taker, makers, maker_keys, maker_owners, fills.drop_last(), program_id,
            delegation_program, market, side, max_leverage_bps, current_slot) {
            Err(e) => Err(e),
            Ok((t1, m1)) => spec_settle_fill(t1, m1, maker_keys, maker_owners, fills.last(), program_id,
                delegation_program, market, side, max_leverage_bps, current_slot),
        }
    }
}

/// The views of the maker accounts.
pub open spec fn views(accounts: Seq<TraderAccount>) -> Seq<TraderView> {
    accounts.map_values(|a: TraderAccount| a@)
}

/// The keys of the accounts, as sequences of bytes.
pub open spec fn key_views(keys: Seq<Pubkey>) -> Seq<Seq<u8>> {
    keys.map_values(|k: Pubkey| k@)
}

/// The slot of the first of `keys` equal to `key`, if any.
pub fn find_key(keys: &Vec<Pubkey>, key: &Pubkey) -> (r: Option<usize>)
    ensures
        match first_key_slot(key_views(keys@), key@) {
            Some(j) => r matches Some(i) && i == j,
            None => r is None,
        },
        r matches Some(j) ==> j < keys.len(),
{
    let ghost ks = key_views(keys@);
    let mut i: usize = 0;
    while i < keys.len()
        invariant
            0 <= i <= keys.len(),
            ks == key_views(keys@),
            first_key_slot(ks.take(i as int), key@) is None,
        decreases keys.len() - i,
    {
        proof {
            assert(ks.take(i + 1).drop_last() =~= ks.take(i as int));
        }
        if key_eq(&keys[i], key) {
            proof {
                assert(ks.take(i + 1).last() == key@);
                lemma_first_key_slot(ks, i + 1, key@);
            }
            return Some(i);
        }
        i = i + 1;
    }
    proof {
        assert(ks.take(keys.len() as int) =~= ks);
    }
    None
}

/// Locate the maker's trader account among the keys passed: the first one
/// at the maker's trader PDA; `MakerAccountMissing` when there is none.
pub fn find_maker_account(maker_keys: &Vec<Pubkey>, maker_id: &Pubkey, program_id: &Pubkey) -> (r: Result<usize, ProgramError>)
    ensures
        match maker_slot(key_views(maker_keys@), *maker_id, *program_id) {
            Some(j) => r matches Ok(i) && i == j,
            None => r == Err::<usize, ProgramError>(ProgramError::Custom(PerpRouterError::MakerAccountMissing)),
        },
        r matches Ok(j) ==> j < maker_keys.len(),
{
    match find_trader_account_address(maker_id, program_id) {
        Some((pda, _bump)) => match find_key(maker_keys, &pda) {
            Some(j) => Ok(j),
            None => Err(ProgramError::Custom(PerpRouterError::MakerAccountMissing)),
        },
        None => Err(ProgramError::Custom(PerpRouterError::MakerAccountMissing)),
    }
}

/// Settle one captured fill on the taker and on its maker's account (see
/// [`spec_settle_fill`]). On error the accounts may be partly updated; the
/// instruction then fails as a whole.
pub fn settle_fill(
    taker: &mut TraderAccount,
    makers: &mut Vec<TraderAccount>,
    maker_keys: &Vec<Pubkey>,
    maker_owners: &Vec<Pubkey>,
    fill: CapturedFill,
    program_id: &Pubkey,
    delegation_program: &Pubkey,
    market: &Pubkey,
    side: Side,
    max_leverage_bps: u32,
    current_slot: u64,
) -> (r: Result<(), ProgramError>)
    requires
        trader_wf(*old(taker)),
        forall|j: int| 0 <= j < old(makers).len() ==> trader_wf(#[trigger] old(makers)@[j]),
        old(makers).len() == maker_keys.len(),
        maker_owners.len() == maker_keys.len(),
    ensures
        match spec_settle_fill(old(taker)@, views(old(makers)@), key_views(maker_keys@), key_views(maker_owners@),
            fill, *program_id, delegation_program@, market@, side, max_leverage_bps, current_slot) {
            Ok((t1, m1)) => r is Ok && final(taker)@ == t1 && views(final(makers)@) == m1,
            Err(e) => r == Err::<(), ProgramError>(e),
        },
        trader_wf(*final(taker)),
        final(makers).len() == old(makers).len(),
        forall|j: int| 0 <= j < final(makers).len() ==> trader_wf(#[trigger] final(makers)@[j]),
{
    let (margin, signed) = match fill_terms(side, fill.price_in_ticks, fill.base_lots_filled, max_leverage_bps) {
        Ok(terms) => terms,
        Err(e) => { return Err(e); },
    };
    match apply_fill_to_position(taker, market, signed, fill.price_in_ticks, margin, MarginSource::FreeCollateral, current_slot) {
        Ok(()) => {},
        Err(e) => { return Err(e); },
    }
    let j = match find_maker_account(maker_keys, &fill.maker_id, program_id) {
        Ok(j) => j,
        Err(e) => { return Err(e); },
    };
    assert(key_views(maker_owners@)[j as int] == maker_owners@[j as int]@);
    if !key_eq(&maker_owners[j], program_id) && !key_eq(&maker_owners[j], delegation_program) {
        return Err(ProgramError::IllegalOwner);
    }
    let mut maker = makers[j];
    assert(views(makers@)[j as int] == maker@);
    match apply_fill_to_position(&mut maker, market, -signed, fill.price_in_ticks, margin, MarginSource::LockedMargin, current_slot) {
        Ok(()) => {},
        Err(e) => { return Err(e); },
    }
    let ghost before = views(makers@);
    makers.set(j, maker);
    assert(views(makers@) =~= before.update(j as int, maker@));
    Ok(())
}

/// Settle every captured fill, in order, on the taker and on the makers'
/// accounts (`maker_keys[j]`, owned by `maker_owners[j]`, holds
/// `makers[j]`). On error the first failing check's error is returned.
pub fn settle_fills(
    taker: &mut TraderAccount,
    makers: &mut Vec<TraderAccount>,
    maker_keys: &Vec<Pubkey>,
    maker_owners: &Vec<Pubkey>,
    fills: &Vec<CapturedFill>,
    program_id: &Pubkey,
    delegation_program: &Pubkey,
    market: &Pubkey,
    side: Side,
    max_leverage_bps: u32,
    current_slot: u64,
) -> (r: Result<(), ProgramError>)
    requires
        trader_wf(*old(taker)),
        forall|j: int| 0 <= j < old(makers).len() ==> trader_wf(#[trigger] old(makers)@[j]),
        old(makers).len() == maker_keys.len(),
        maker_owners.len() == maker_keys.len(),
    ensures
        r is Ok ==> spec_settle_fills(old(taker)@, views(old(makers)@), key_views(maker_keys@),
            key_views(maker_owners@), fills@, *program_id, delegation_program@, market@, side,
            max_leverage_bps, current_slot) == Ok::<(TraderView, Seq<TraderView>), ProgramError>((final(taker)@, views(final(makers)@))),
        r matches Err(e) ==> spec_settle_fills(old(taker)@, views(old(makers)@), key_views(maker_keys@),
            key_views(maker_owners@), fills@, *program_id, delegation_program@, market@, side,
            max_leverage_bps, current_slot) == Err::<(TraderView, Seq<TraderView>), ProgramError>(e),
{
    let ghost t0 = taker@;
    let ghost m0 = views(makers@);
    let ghost kv = key_views(maker_keys@);
    let ghost ov = key_views(maker_owners@);
    let mut k: usize = 0;
    while k < fills.len()
        invariant
            0 <= k <= fills.len(),
            trader_wf(*taker),
            makers.len() == maker_keys.len(),
            maker_owners.len() == maker_keys.len(),
            forall|j: int| 0 <= j < makers.len() ==> trader_wf(#[trigger] makers@[j]),
            kv == key_views(maker_keys@),
            ov == key_views(maker_owners@),
            t0 == old(taker)@,
            m0 == views(old(makers)@),
            spec_settle_fills(t0, m0, kv, ov, fills@.take(k as int), *program_id, delegation_program@,
                market@, side, max_leverage_bps, current_slot) == Ok::<(TraderView, Seq<TraderView>), ProgramError>((taker@, views(makers@))),
        decreases fills.len() - k,
    {
        let fill = fills[k];
        proof {
            assert(fills@.take(k + 1).drop_last() =~= fills@.take(k as int));
            assert(fills@.take(k + 1).last() == fill);
        }
        match settle_fill(taker, makers, maker_keys, maker_owners, fill, program_id, delegation_program, market,
            side, max_leverage_bps, current_slot) {
            Ok(()) => {},
            Err(e) => {
                proof {
                    lemma_settle_prefix_err(t0, m0, kv, ov, fills@, k as int, *program_id, delegation_program@,
                        market@, side, max_leverage_bps, current_slot, e);
                }
                return Err(e);
            },
        }
        k = k + 1;
    }
    assert(fills@.take(fills.len() as int) =~= fills@);
    Ok(())
}

/// Once a prefix of the fills has failed, the whole settlement fails with
/// the same error.
proof fn lemma_settle_prefix_err(
    taker: TraderView,
    makers: Seq<TraderView>,
    maker_keys: Seq<Seq<u8>>,
    maker_owners: Seq<Seq<u8>>,
    fills: Seq<CapturedFill>,
    k: int,
    program_id: Pubkey,
    delegation_program: Seq<u8>,
    market: Seq<u8>,
    side: Side,
    max_leverage_bps: u32,
    current_slot: u64,
    e: ProgramError,
)
    requires
        0 <= k < fills.len(),
        spec_settle_fills(taker, makers, maker_keys, maker_owners, fills.take(k + 1), program_id,
            delegation_program, market, side, max_leverage_bps, current_slot) == Err::<(TraderView, Seq<TraderView>), ProgramError>(e),
    ensures
        spec_settle_fills(taker, makers, maker_keys, maker_owners, fills, program_id,
            delegation_program, market, side, max_leverage_bps, current_slot) == Err::<(TraderView, Seq<TraderView>), ProgramError>(e),
    decreases fills.len() - k,
{
    if k + 1 < fills.len() {
        let shorter = fills.drop_last();
        assert(shorter.take(k + 1) =~= fills.take(k + 1));
        lemma_settle_prefix_err(taker, makers, maker_keys, maker_owners, shorter, k,
            program_id, delegation_program, market, side, max_leverage_bps, current_slot, e);
    } else {
        assert(fills.take(k + 1) =~= fills);
    }
}

} // verus!
