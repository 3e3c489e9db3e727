//! Liquidate — books a stated shortfall against the pool: A shrinks
//! proportionally over the open interest, B records the loss, and the pool
//! value drops by it. No per-account deleveraging.

use vstd::prelude::*;

use crate::state::bytes::Pubkey;
use crate::validation::loaders::{check_global_state_key, check_perp_market_key, global_state_seeds, is_pda_of, perp_market_seeds};

use crate::error::{PerpRouterError, ProgramError};
use crate::instructions::direct_open_position::sat_sub;
use crate::instructions::place_order_perp::abs_int;
use crate::risk::side_index::{apply_shortfall, spec_apply_shortfall};
use crate::state::global::GlobalState;
use crate::state::perp_market::PerpMarket;

verus! {

/// Instruction parameters of Liquidate.
pub struct LiquidateParams {
    /// Collateral shortfall to absorb; zero books nothing.
    pub shortfall: u64,
}

/// Total open interest as the shortfall is spread over it: `|OI|` taken
/// into a `u64` (modulo 2^64).
pub open spec fn total_oi_abs(m: PerpMarket) -> u64 {
    abs_int(m.spec_open_interest()) as u64
}

/// `|x|` of an `i128`, taken into a `u64` (modulo 2^64).
pub fn abs_i128_to_u64(x: i128) -> (r: u64)
    ensures
        r == abs_int(x as int) as u64,
{
    let magnitude: u128 = if x == i128::MIN {
        0x8000_0000_0000_0000_0000_0000_0000_0000u128
    } else if x < 0 {
        (0i128 - x) as u128
    } else {
        x as u128
    };
    magnitude as u64
}

/// Book `shortfall`: with a zero shortfall nothing changes; otherwise
/// `(A, B) := apply_shortfall(A, B, shortfall, |OI|)` and the pool value
/// drops by the shortfall (saturating). On error nothing changes.
///
/// Before that, `perp_market_key` must be the market's PDA and, when
/// there is a shortfall, `global_state_key` the global PDA (`InvalidPda`).
pub fn process(
    program_id: &Pubkey,
    global_state_key: &Pubkey,
    perp_market_key: &Pubkey,
    g: &mut GlobalState,
    m: &PerpMarket,
    p: &LiquidateParams,
) -> (r: Result<(), ProgramError>)
    ensures
        !is_pda_of(perp_market_key@, perp_market_seeds(m.phoenix_market@), *program_id)
            ==> r == Err::<(), ProgramError>(ProgramError::Custom(PerpRouterError::InvalidPda)) && *final(g) == *old(g),
        is_pda_of(perp_market_key@, perp_market_seeds(m.phoenix_market@), *program_id) && p.shortfall == 0
            ==> r is Ok && *final(g) == *old(g),
        is_pda_of(perp_market_key@, perp_market_seeds(m.phoenix_market@), *program_id) && p.shortfall != 0
            && !is_pda_of(global_state_key@, global_state_seeds(), *program_id)
            ==> r == Err::<(), ProgramError>(ProgramError::Custom(PerpRouterError::InvalidPda)) && *final(g) == *old(g),
        is_pda_of(perp_market_key@, perp_market_seeds(m.phoenix_market@), *program_id) && p.shortfall != 0
            && is_pda_of(global_state_key@, global_state_seeds(), *program_id) ==> match spec_apply_shortfall(old(g).spec_a() as i128, old(g).spec_b() as i128,
            p.shortfall, total_oi_abs(*m)) {
            Ok((a, b)) => {
                &&& r is Ok
                &&& final(g).spec_a() == a
                &&& final(g).spec_b() == b
                &&& *final(g) == (GlobalState {
                    a: final(g).a,
                    b: final(g).b,
                    v_total_pool_value: sat_sub(old(g).v_total_pool_value as int, p.shortfall as int) as u64,
                    ..*old(g)
                })
            },
            Err(e) => r == Err::<(), ProgramError>(ProgramError::Custom(e)) && *final(g) == *old(g),
        },
{
    match check_perp_market_key(program_id, &m.phoenix_market, perp_market_key) {
        Ok(()) => {},
        Err(e) => { return Err(e); },
    }
    let total_oi = abs_i128_to_u64(m.get_open_interest());
    if p.shortfall == 0 {
        return Ok(());
    }
    match check_global_state_key(program_id, global_state_key) {
        Ok(()) => {},
        Err(e) => { return Err(e); },
    }
    let (a_new, b_new) = match apply_shortfall(g.get_a(), g.get_b(), p.shortfall, total_oi) {
        Ok(ab) => ab,
        Err(e) => { return Err(ProgramError::Custom(e)); },
    };
    g.set_a(a_new);
    g.set_b(b_new);
    g.v_total_pool_value = g.v_total_pool_value.saturating_sub(p.shortfall);
    Ok(())
}

} // verus!
