//! DirectDeposit — credits a deposit (already transferred into the
//! collateral vault) to the trader and to the pool's balance sheet.

use vstd::prelude::*;

use crate::error::{PerpRouterError, ProgramError};
use crate::state::bytes::{key_eq, Pubkey};
use crate::state::global::GlobalState;
use crate::state::trader_account::{TraderAccount, TraderView};
use crate::instructions::request_collateral_deposit::is_vault_of;
use crate::state::vault::find_collateral_vault_address;
use crate::validation::loaders::{
    check_global_state_key, check_trader_account_key, global_state_seeds, is_pda_of, trader_account_seeds,
};

verus! {

/// Instruction parameters of DirectDeposit.
pub struct DirectDepositParams {
    pub amount: u64,
}

/// Outcome of crediting `amount`: the trader account and the pool's new
/// value and total collateral.
pub open spec fn spec_credit(v: TraderView, g: GlobalState, amount: u64) -> Result<(TraderView, u64, u64), ProgramError> {
    if v.collateral + amount > u64::MAX
        || g.v_total_pool_value + amount > u64::MAX
        || g.c_total_collateral + amount > u64::MAX {
        Err(ProgramError::Custom(PerpRouterError::MathOverflow))
    } else {
        Ok((
            TraderView { collateral: (v.collateral + amount) as u64, ..v },
            (g.v_total_pool_value + amount) as u64,
            (g.c_total_collateral + amount) as u64,
        ))
    }
}

/// Add `amount` to the trader's collateral and to the pool's value and
/// total collateral. On error nothing changes.
pub fn credit_collateral(t: &mut TraderAccount, g: &mut GlobalState, amount: u64) -> (r: Result<(), ProgramError>)
    ensures
        match spec_credit(old(t)@, *old(g), amount) {
            Ok((v, pool, coll)) => r is Ok && final(t)@ == v && *final(g) == (GlobalState {
                v_total_pool_value: pool,
                c_total_collateral: coll,
                ..*old(g)
            }),
            Err(e) => r == Err::<(), ProgramError>(e) && *final(t) == *old(t) && *final(g) == *old(g),
        },
{
    let collateral = match t.collateral.checked_add(amount) {
        Some(c) => c,
        None => { return Err(ProgramError::Custom(PerpRouterError::MathOverflow)); },
    };
    let pool = match g.v_total_pool_value.checked_add(amount) {
        Some(v) => v,
        None => { return Err(ProgramError::Custom(PerpRouterError::MathOverflow)); },
    };
    let total = match g.c_total_collateral.checked_add(amount) {
        Some(c) => c,
        None => { return Err(ProgramError::Custom(PerpRouterError::MathOverflow)); },
    };
    t.collateral = collateral;
    g.v_total_pool_value = pool;
    g.c_total_collateral = total;
    Ok(())
}

/// `vault_key` must be the collateral vault of `quote_mint`; `InvalidPda`
/// otherwise.
pub fn check_vault(program_id: &Pubkey, quote_mint: &Pubkey, vault_key: &Pubkey) -> (r: Result<(), ProgramError>)
    ensures
        r == (if is_vault_of(*vault_key, *quote_mint, *program_id) {
            Ok(())
        } else {
            Err(ProgramError::Custom(PerpRouterError::InvalidPda))
        }),
{
    let ok = match find_collateral_vault_address(quote_mint, program_id) {
        Some(v) => key_eq(&v, vault_key),
        None => false,
    };
    if ok { Ok(()) } else { Err(ProgramError::Custom(PerpRouterError::InvalidPda)) }
}

/// Outcome of crediting a direct deposit, or the first check that fails.
pub open spec fn spec_direct_deposit(
    program_id: Pubkey,
    trader_account_key: Pubkey,
    global_state_key: Pubkey,
    v: TraderView,
    g: GlobalState,
    signer: Seq<u8>,
    amount: u64,
) -> Result<(TraderView, GlobalState), ProgramError> {
    if amount == 0 {
        Err(ProgramError::InvalidInstructionData)
    } else if !is_pda_of(trader_account_key@, trader_account_seeds(v.owner), program_id) {
        Err(ProgramError::Custom(PerpRouterError::InvalidPda))
    } else if v.owner != signer {
        Err(ProgramError::Custom(PerpRouterError::InvalidAuthority))
    } else if v.collateral + amount > u64::MAX {
        Err(ProgramError::Custom(PerpRouterError::MathOverflow))
    } else if !is_pda_of(global_state_key@, global_state_seeds(), program_id) {
        Err(ProgramError::Custom(PerpRouterError::InvalidPda))
    } else {
        match spec_credit(v, g, amount) {
            Err(e) => Err(e),
            Ok((nv, pool, coll)) => Ok((nv, GlobalState { v_total_pool_value: pool, c_total_collateral: coll, ..g })),
        }
    }
}

/// Credit a direct deposit of `amount` (already transferred into the
/// vault) to the signer's account and to the pool: the amount must be
/// positive, the trader account at its owner's PDA and the signer's, the
/// global state at its PDA. On error nothing changes.
pub fn process(
    program_id: &Pubkey,
    trader_account_key: &Pubkey,
    global_state_key: &Pubkey,
    t: &mut TraderAccount,
    g: &mut GlobalState,
    signer: &Pubkey,
    p: &DirectDepositParams,
) -> (r: Result<(), ProgramError>)
    ensures
        match spec_direct_deposit(*program_id, *trader_account_key, *global_state_key, old(t)@, *old(g), signer@, p.amount) {
            Ok((nv, ng)) => r is Ok && final(t)@ == nv && *final(g) == ng,
            Err(e) => r == Err::<(), ProgramError>(e) && *final(t) == *old(t) && *final(g) == *old(g),
        },
{
    if p.amount == 0 {
        return Err(ProgramError::InvalidInstructionData);
    }
    match check_trader_account_key(program_id, &t.owner, trader_account_key) {
        Ok(()) => {},
        Err(e) => { return Err(e); },
    }
    if !key_eq(&t.owner, signer) {
        return Err(ProgramError::Custom(PerpRouterError::InvalidAuthority));
    }
    if t.collateral.checked_add(p.amount).is_none() {
        return Err(ProgramError::Custom(PerpRouterError::MathOverflow));
    }
    match check_global_state_key(program_id, global_state_key) {
        Ok(()) => {},
        Err(e) => { return Err(e); },
    }
    credit_collateral(t, g, p.amount)
}

} // verus!
