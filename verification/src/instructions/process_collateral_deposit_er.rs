//! ProcessCollateralDepositEr — rollup, stage 2 of 3 of a deposit: the
//! delegated receipt's amount is credited to the trader's collateral and
//! to the pool's value and total collateral, and the receipt is marked
//! processed (stage 3 then closes it on the base layer).

use vstd::prelude::*;

use crate::error::{PerpRouterError, ProgramError};
use crate::state::bytes::{key_eq, Pubkey};
use crate::state::global::GlobalState;
use crate::state::receipts::DepositReceipt;
use crate::state::trader_account::{TraderAccount, TraderView};
use crate::validation::loaders::{
    deposit_receipt_seeds, find_deposit_receipt_address, find_global_state_address,
    find_trader_account_address, found_address_is, global_state_seeds, is_pda_of,
    trader_account_seeds,
};

verus! {

/// Outcome of stage 2: the receipt, the trader account and the global
/// state after crediting, or the first check that fails.
pub open spec fn spec_process_deposit_er(
    program_id: Pubkey,
    trader_key: Pubkey,
    receipt_key: Pubkey,
    trader_account_key: Pubkey,
    global_state_key: Pubkey,
    r: DepositReceipt,
    v: TraderView,
    g: GlobalState,
) -> Result<(DepositReceipt, TraderView, GlobalState), ProgramError> {
    if r.processed != 0 {
        Err(ProgramError::Custom(PerpRouterError::ReceiptAlreadyProcessed))
    } else if r.trader != trader_key {
        Err(ProgramError::InvalidArgument)
    } else if !is_pda_of(receipt_key@, deposit_receipt_seeds(r.trader@), program_id) {
        Err(ProgramError::Custom(PerpRouterError::InvalidPda))
    } else if v.owner != r.trader@ {
        Err(ProgramError::InvalidArgument)
    } else if !is_pda_of(trader_account_key@, trader_account_seeds(v.owner), program_id) {
        Err(ProgramError::Custom(PerpRouterError::InvalidPda))
    } else if v.collateral + r.amount > u64::MAX {
        Err(ProgramError::Custom(PerpRouterError::MathOverflow))
    } else if !is_pda_of(global_state_key@, global_state_seeds(), program_id) {
        Err(ProgramError::Custom(PerpRouterError::InvalidPda))
    } else if g.v_total_pool_value + r.amount > u64::MAX || g.c_total_collateral + r.amount > u64::MAX {
        Err(ProgramError::Custom(PerpRouterError::MathOverflow))
    } else {
        Ok((
            DepositReceipt { processed: 1, ..r },
            TraderView { collateral: (v.collateral + r.amount) as u64, ..v },
            GlobalState {
                v_total_pool_value: (g.v_total_pool_value + r.amount) as u64,
                c_total_collateral: (g.c_total_collateral + r.amount) as u64,
                ..g
            },
        ))
    }
}

/// Credit the receipt's amount: the receipt must be unprocessed, belong to
/// the signing trader and sit at the trader's receipt PDA; the trader
/// account must be the trader's, at its PDA; the global state at its PDA.
/// On error nothing changes.
pub fn process(
    program_id: &Pubkey,
    trader_key: &Pubkey,
    receipt_key: &Pubkey,
    trader_account_key: &Pubkey,
    global_state_key: &Pubkey,
    receipt: &mut DepositReceipt,
    t: &mut TraderAccount,
    g: &mut GlobalState,
) -> (res: Result<(), ProgramError>)
    ensures
        match spec_process_deposit_er(
            *program_id, *trader_key, *receipt_key, *trader_account_key, *global_state_key,
            *old(receipt), old(t)@, *old(g),
        ) {
            Ok((nr, nv, ng)) => res is Ok && *final(receipt) == nr && final(t)@ == nv && *final(g) == ng,
            Err(e) => res == Err::<(), ProgramError>(e) && *final(receipt) == *old(receipt)
                && *final(t) == *old(t) && *final(g) == *old(g),
        },
{
    if receipt.processed != 0 {
        return Err(ProgramError::Custom(PerpRouterError::ReceiptAlreadyProcessed));
    }
    if !key_eq(&receipt.trader, trader_key) {
        return Err(ProgramError::InvalidArgument);
    }
    if !found_address_is(find_deposit_receipt_address(&receipt.trader, program_id), receipt_key) {
        return Err(ProgramError::Custom(PerpRouterError::InvalidPda));
    }
    if !key_eq(&t.owner, &receipt.trader) {
        return Err(ProgramError::InvalidArgument);
    }
    if !found_address_is(find_trader_account_address(&t.owner, program_id), trader_account_key) {
        return Err(ProgramError::Custom(PerpRouterError::InvalidPda));
    }
    let amount = receipt.amount;
    let collateral = match t.collateral.checked_add(amount) {
        Some(c) => c,
        None => { return Err(ProgramError::Custom(PerpRouterError::MathOverflow)); },
    };
    if !found_address_is(find_global_state_address(program_id), global_state_key) {
        return Err(ProgramError::Custom(PerpRouterError::InvalidPda));
    }
    let pool = match g.v_total_pool_value.checked_add(amount) {
        Some(v) => v,
        None => { return Err(ProgramError::Custom(PerpRouterError::MathOverflow)); },
    };
    let total = match g.c_total_collateral.checked_add(amount) {
        Some(c) => c,
        None => { return Err(ProgramError::Custom(PerpRouterError::MathOverflow)); },
    };
    t.collateral = collateral;
    g.v_total_pool_value = pool;
    g.c_total_collateral = total;
    receipt.processed = 1;
    Ok(())
}

/// A deposit receipt is credited at most once: stage 2 credits exactly the
/// receipt's amount to the trader's collateral and to the pool's value and
/// total collateral, and running stage 2 again on what it left is refused
/// with `ReceiptAlreadyProcessed`.
pub proof fn lemma_deposit_credited_once(
    program_id: Pubkey,
    trader_key: Pubkey,
    receipt_key: Pubkey,
    trader_account_key: Pubkey,
    global_state_key: Pubkey,
    r: DepositReceipt,
    v: TraderView,
    g: GlobalState,
)
    requires
        spec_process_deposit_er(program_id, trader_key, receipt_key, trader_account_key, global_state_key, r, v, g) is Ok,
    ensures
        ({
            let (r1, v1, g1) = spec_process_deposit_er(program_id, trader_key, receipt_key, trader_account_key,
                global_state_key, r, v, g)->Ok_0;
            &&& v1.collateral == v.collateral + r.amount
            &&& g1.v_total_pool_value == g.v_total_pool_value + r.amount
            &&& g1.c_total_collateral == g.c_total_collateral + r.amount
            &&& r1.amount == r.amount
            &&& spec_process_deposit_er(program_id, trader_key, receipt_key, trader_account_key, global_state_key,
                r1, v1, g1) == Err::<(DepositReceipt, TraderView, GlobalState), ProgramError>(
                ProgramError::Custom(PerpRouterError::ReceiptAlreadyProcessed))
        }),
{
}

} // verus!
