//! MaturePnl — sweeps a trader's matured PnL reserve entries into
//! `pnl_matured` and adds the amount to the pool's total matured PnL.

use vstd::prelude::*;

use crate::state::bytes::Pubkey;
use crate::validation::loaders::{check_global_state_key, check_trader_account_key, global_state_seeds, is_pda_of, trader_account_seeds};

use crate::error::{PerpRouterError, ProgramError};
use crate::risk::warmup::{spec_sweep, sweep_matured};
use crate::state::global::GlobalState;
use crate::state::trader_account::{trader_wf, TraderAccount, TraderView};

verus! {

/// Outcome of MaturePnl: the trader account and the pool's new total
/// matured PnL.
pub open spec fn spec_mature(
    program_id: Pubkey,
    trader_account_key: Pubkey,
    global_state_key: Pubkey,
    v: TraderView,
    g: GlobalState,
    current_slot: u64,
) -> Result<(TraderView, u64), ProgramError> {
    let swept = spec_sweep(v.pnl_reserve, v.pnl_reserve_len, current_slot);
    let matured = swept.2;
    if !is_pda_of(trader_account_key@, trader_account_seeds(v.owner), program_id) {
        Err(ProgramError::Custom(PerpRouterError::InvalidPda))
    } else if matured > 0 && v.pnl_matured + matured > u64::MAX {
        Err(ProgramError::Custom(PerpRouterError::MathOverflow))
    } else if matured > 0 && !is_pda_of(global_state_key@, global_state_seeds(), program_id) {
        Err(ProgramError::Custom(PerpRouterError::InvalidPda))
    } else if matured > 0 && g.total_matured_pnl + matured > u64::MAX {
        Err(ProgramError::Custom(PerpRouterError::MathOverflow))
    } else {
        Ok((
            TraderView {
                pnl_reserve: swept.0,
                pnl_reserve_len: swept.1,
                pnl_matured: (v.pnl_matured + matured) as u64,
                ..v
            },
            (g.total_matured_pnl + matured) as u64,
        ))
    }
}

/// Sweep the matured reserve entries of `t` at `current_slot` into its
/// withdrawable `pnl_matured`, and add them to the pool's total matured
/// PnL. The trader account must sit at its owner's PDA and, when anything
/// matured, the global state at its PDA. On error nothing changes.
pub fn process(
    program_id: &Pubkey,
    trader_account_key: &Pubkey,
    global_state_key: &Pubkey,
    t: &mut TraderAccount,
    g: &mut GlobalState,
    current_slot: u64,
) -> (r: Result<(), ProgramError>)
    requires
        trader_wf(*old(t)),
    ensures
        match spec_mature(*program_id, *trader_account_key, *global_state_key, old(t)@, *old(g), current_slot) {
            Ok((v, total)) => r is Ok && final(t)@ == v
                && *final(g) == (GlobalState { total_matured_pnl: total, ..*old(g) }),
            Err(e) => r == Err::<(), ProgramError>(e) && *final(t) == *old(t) && *final(g) == *old(g),
        },
        trader_wf(*final(t)),
{
    match check_trader_account_key(program_id, &t.owner, trader_account_key) {
        Ok(()) => {},
        Err(e) => { return Err(e); },
    }
    let mut w = *t;
    let matured = sweep_matured(&mut w.pnl_reserve, &mut w.pnl_reserve_len, current_slot);
    if matured > 0 {
        w.pnl_matured = match w.pnl_matured.checked_add(matured) {
            Some(v) => v,
            None => { return Err(ProgramError::Custom(PerpRouterError::MathOverflow)); },
        };
        match check_global_state_key(program_id, global_state_key) {
            Ok(()) => {},
            Err(e) => { return Err(e); },
        }
        g.total_matured_pnl = match g.total_matured_pnl.checked_add(matured) {
            Some(v) => v,
            None => { return Err(ProgramError::Custom(PerpRouterError::MathOverflow)); },
        };
    }
    proof { crate::risk::warmup::lemma_survivors_len(t@.pnl_reserve.take(t.pnl_reserve_len as int), current_slot); }
    *t = w;
    Ok(())
}

} // verus!
