//! RecoveryCheck — drives the recovery state machine one step:
//!   Normal      + |A| < A_PRECISION_FLOOR → DrainOnly
//!   DrainOnly   + open interest == 0      → ResetPending
//!   ResetPending                          → Normal (A = 1.0, epoch + 1)
//! The total open interest is summed over the perp markets passed with
//! the instruction: the sum of the magnitudes of their open interests.

use vstd::prelude::*;

use crate::constants::FIXED_POINT_ONE;
use crate::error::{PerpRouterError, ProgramError};
use crate::state::bytes::Pubkey;
use crate::validation::loaders::{check_global_state_key, global_state_seeds, is_pda_of};
use crate::risk::recovery::{next_state, reset_indices, spec_next_state};
use crate::state::global::{GlobalState, RECOVERY_RESET_PENDING};
use crate::state::perp_market::PerpMarket;

verus! {

/// The sum of the magnitudes of the markets' open interests.
pub open spec fn spec_open_interest_sum(markets: Seq<PerpMarket>) -> int
    decreases markets.len(),
{
    if markets.len() == 0 {
        0
    } else {
        let oi = markets.last().spec_open_interest();
        spec_open_interest_sum(markets.drop_last()) + (if oi < 0 { -oi } else { oi })
    }
}

/// The total open interest as a `u64`, saturating at `u64::MAX`.
pub open spec fn spec_total_open_interest(markets: Seq<PerpMarket>) -> u64 {
    let s = spec_open_interest_sum(markets);
    if s > u64::MAX { u64::MAX } else { s as u64 }
}

proof fn lemma_open_interest_sum_nonneg(markets: Seq<PerpMarket>)
    ensures
        spec_open_interest_sum(markets) >= 0,
    decreases markets.len(),
{
    if markets.len() > 0 {
        lemma_open_interest_sum_nonneg(markets.drop_last());
    }
}

/// The total open interest of `markets`: the sum of the magnitudes of
/// their open interests, saturating at `u64::MAX`. It is zero exactly
/// when every market has zero open interest.
pub fn total_open_interest(markets: &Vec<PerpMarket>) -> (r: u64)
    ensures
        r == spec_total_open_interest(markets@),
{
    let mut total: u64 = 0;
    let mut i: usize = 0;
    while i < markets.len()
        invariant
            0 <= i <= markets.len(),
            total == spec_total_open_interest(markets@.take(i as int)),
        decreases markets.len() - i,
    {
        proof {
            assert(markets@.take(i + 1).drop_last() =~= markets@.take(i as int));
            lemma_open_interest_sum_nonneg(markets@.take(i as int));
        }
        let oi = markets[i].get_open_interest();
        let mag: u64 = if oi == i128::MIN {
            u64::MAX
        } else if oi < 0 {
            if -oi > u64::MAX as i128 { u64::MAX } else { (-oi) as u64 }
        } else {
            if oi > u64::MAX as i128 { u64::MAX } else { oi as u64 }
        };
        total = total.saturating_add(mag);
        i = i + 1;
    }
    assert(markets@.take(markets.len() as int) =~= markets@);
    total
}

/// The global state after one recovery check, with `open_interest` the
/// total open interest.
pub open spec fn spec_recovery_check(g: GlobalState, open_interest: u64, new_g: GlobalState) -> bool {
    let next = spec_next_state(g.recovery_state, g.spec_a() as i128, open_interest);
    if next == g.recovery_state {
        new_g == g
    } else if g.recovery_state == RECOVERY_RESET_PENDING {
        &&& new_g.spec_a() == FIXED_POINT_ONE
        &&& new_g == (GlobalState {
            recovery_state: next,
            a: new_g.a,
            epoch: if g.epoch == u64::MAX { u64::MAX } else { (g.epoch + 1) as u64 },
            ..g
        })
    } else {
        new_g == (GlobalState { recovery_state: next, ..g })
    }
}

/// Apply one transition of the recovery state machine. Idempotent when no
/// transition fires; leaving `ResetPending` resets A to 1.0 and bumps the
/// epoch; K is left as the historical accumulator. The global state must
/// sit at its PDA (`InvalidPda`, nothing changes). `DrainOnly` moves on
/// only when the total open interest of `markets` is zero.
pub fn process(program_id: &Pubkey, global_state_key: &Pubkey, g: &mut GlobalState, markets: &Vec<PerpMarket>) -> (r: Result<(), ProgramError>)
    ensures
        !is_pda_of(global_state_key@, global_state_seeds(), *program_id)
            ==> r == Err::<(), ProgramError>(ProgramError::Custom(PerpRouterError::InvalidPda)) && *final(g) == *old(g),
        is_pda_of(global_state_key@, global_state_seeds(), *program_id)
            ==> r is Ok && spec_recovery_check(*old(g), spec_total_open_interest(markets@), *final(g)),
{
    match check_global_state_key(program_id, global_state_key) {
        Ok(()) => {},
        Err(e) => { return Err(e); },
    }
    let open_interest = total_open_interest(markets);
    let current = g.recovery_state;
    let next = next_state(current, g.get_a(), open_interest);
    if next != current {
        g.recovery_state = next;
        if current == RECOVERY_RESET_PENDING {
            let r = reset_indices(g.epoch);
            g.set_a(r.new_a);
            g.epoch = r.new_epoch_inc;
        }
    }
    Ok(())
}

} // verus!
