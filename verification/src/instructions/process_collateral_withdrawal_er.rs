//! ProcessCollateralWithdrawalEr — rollup, stage 2 of 3 of a withdrawal,
//! where the haircut runs: the gross request is split (collateral first,
//! senior and paid in full; then matured PnL, junior and scaled by H), the
//! trader account and the pool's totals are debited, and the receipt
//! records the net payout and the haircut applied.

use vstd::prelude::*;

use crate::error::{PerpRouterError, ProgramError};
use crate::instructions::direct_withdraw::{request_split, spec_withdrawal_terms, withdrawal_terms};
use crate::risk::haircut::{lemma_scale_le, spec_compute_h};
use crate::state::bytes::{key_eq, Pubkey};
use crate::state::global::GlobalState;
use crate::state::receipts::WithdrawalReceipt;
use crate::state::trader_account::{TraderAccount, TraderView};
use crate::validation::loaders::{
    find_global_state_address, find_trader_account_address, find_withdrawal_receipt_address,
    found_address_is, global_state_seeds, is_pda_of, trader_account_seeds, withdrawal_receipt_seeds,
};

verus! {

/// Outcome of stage 2: the receipt, the trader account and the global
/// state after the debit, or the first check that fails.
pub open spec fn spec_process_withdrawal_er(
    program_id: Pubkey,
    trader_key: Pubkey,
    receipt_key: Pubkey,
    trader_account_key: Pubkey,
    global_state_key: Pubkey,
    r: WithdrawalReceipt,
    v: TraderView,
    g: GlobalState,
) -> Result<(WithdrawalReceipt, TraderView, GlobalState), ProgramError> {
    if r.processed != 0 {
        Err(ProgramError::Custom(PerpRouterError::ReceiptAlreadyProcessed))
    } else if r.trader != trader_key {
        Err(ProgramError::InvalidArgument)
    } else if !is_pda_of(receipt_key@, withdrawal_receipt_seeds(r.trader@), program_id) {
        Err(ProgramError::Custom(PerpRouterError::InvalidPda))
    } else if v.owner != r.trader@ {
        Err(ProgramError::InvalidArgument)
    } else if !is_pda_of(trader_account_key@, trader_account_seeds(v.owner), program_id) {
        Err(ProgramError::Custom(PerpRouterError::InvalidPda))
    } else if !is_pda_of(global_state_key@, global_state_seeds(), program_id) {
        Err(ProgramError::Custom(PerpRouterError::InvalidPda))
    } else {
        match spec_withdrawal_terms(v, g, r.gross_amount) {
            Err(e) => Err(e),
            Ok((coll, pnl, net, h_num, h_den)) =>
                if g.v_total_pool_value < net || g.c_total_collateral < coll || g.total_matured_pnl < pnl {
                    Err(ProgramError::Custom(PerpRouterError::MathOverflow))
                } else {
                    Ok((
                        WithdrawalReceipt {
                            net_amount: net,
                            h_numerator: h_num,
                            h_denominator: h_den,
                            processed: 1,
                            ..r
                        },
                        TraderView {
                            collateral: (v.collateral - coll) as u64,
                            pnl_matured: (v.pnl_matured - pnl) as u64,
                            ..v
                        },
                        GlobalState {
                            v_total_pool_value: (g.v_total_pool_value - net) as u64,
                            c_total_collateral: (g.c_total_collateral - coll) as u64,
                            total_matured_pnl: (g.total_matured_pnl - pnl) as u64,
                            ..g
                        },
                    ))
                },
        }
    }
}

/// Debit the receipt's gross request with the haircut applied: the
/// receipt must be unprocessed, belong to the signing trader and sit at
/// the trader's receipt PDA; the trader account must be the trader's, at
/// its PDA; the global state at its PDA. The pool's value drops by the net
/// payout, its total collateral by the collateral part, its matured PnL by
/// the PnL part (each checked). On error nothing changes.
pub fn process(
    program_id: &Pubkey,
    trader_key: &Pubkey,
    receipt_key: &Pubkey,
    trader_account_key: &Pubkey,
    global_state_key: &Pubkey,
    receipt: &mut WithdrawalReceipt,
    t: &mut TraderAccount,
    g: &mut GlobalState,
) -> (res: Result<(), ProgramError>)
    ensures
        match spec_process_withdrawal_er(
            *program_id, *trader_key, *receipt_key, *trader_account_key, *global_state_key,
            *old(receipt), old(t)@, *old(g),
        ) {
            Ok((nr, nv, ng)) => res is Ok && *final(receipt) == nr && final(t)@ == nv && *final(g) == ng,
            Err(e) => res == Err::<(), ProgramError>(e) && *final(receipt) == *old(receipt)
                && *final(t) == *old(t) && *final(g) == *old(g),
        },
{
    if receipt.processed != 0 {
        return Err(ProgramError::Custom(PerpRouterError::ReceiptAlreadyProcessed));
    }
    if !key_eq(&receipt.trader, trader_key) {
        return Err(ProgramError::InvalidArgument);
    }
    if !found_address_is(find_withdrawal_receipt_address(&receipt.trader, program_id), receipt_key) {
        return Err(ProgramError::Custom(PerpRouterError::InvalidPda));
    }
    if !key_eq(&t.owner, &receipt.trader) {
        return Err(ProgramError::InvalidArgument);
    }
    if !found_address_is(find_trader_account_address(&t.owner, program_id), trader_account_key) {
        return Err(ProgramError::Custom(PerpRouterError::InvalidPda));
    }
    if !found_address_is(find_global_state_address(program_id), global_state_key) {
        return Err(ProgramError::Custom(PerpRouterError::InvalidPda));
    }
    let (coll, pnl, net, h_num, h_den) = match withdrawal_terms(t, g, receipt.gross_amount) {
        Ok(terms) => terms,
        Err(e) => { return Err(e); },
    };
    if g.v_total_pool_value < net || g.c_total_collateral < coll || g.total_matured_pnl < pnl {
        return Err(ProgramError::Custom(PerpRouterError::MathOverflow));
    }
    t.collateral = t.collateral - coll;
    t.pnl_matured = t.pnl_matured - pnl;
    g.v_total_pool_value = g.v_total_pool_value - net;
    g.c_total_collateral = g.c_total_collateral - coll;
    g.total_matured_pnl = g.total_matured_pnl - pnl;
    receipt.net_amount = net;
    receipt.h_numerator = h_num;
    receipt.h_denominator = h_den;
    receipt.processed = 1;
    Ok(())
}

/// A withdrawal receipt is debited at most once, and the debit balances:
/// the collateral part and the PnL part together are at most the gross
/// request; the net payout recorded on the receipt pays the collateral
/// part in full and is at most the gross request; the pool's value drops
/// by exactly the net payout, its total collateral and matured PnL by
/// exactly what the trader's collateral and matured PnL lose. Running
/// stage 2 again on what it left is refused with `ReceiptAlreadyProcessed`.
pub proof fn lemma_withdrawal_debited_once(
    program_id: Pubkey,
    trader_key: Pubkey,
    receipt_key: Pubkey,
    trader_account_key: Pubkey,
    global_state_key: Pubkey,
    r: WithdrawalReceipt,
    v: TraderView,
    g: GlobalState,
)
    requires
        spec_process_withdrawal_er(program_id, trader_key, receipt_key, trader_account_key, global_state_key, r, v, g) is Ok,
    ensures
        ({
            let (r1, v1, g1) = spec_process_withdrawal_er(program_id, trader_key, receipt_key, trader_account_key,
                global_state_key, r, v, g)->Ok_0;
            let coll = v.collateral - v1.collateral;
            let pnl = v.pnl_matured - v1.pnl_matured;
            &&& 0 <= coll && 0 <= pnl && coll + pnl <= r.gross_amount
            &&& coll <= r1.net_amount <= r.gross_amount
            &&& g.v_total_pool_value - g1.v_total_pool_value == r1.net_amount
            &&& g.c_total_collateral - g1.c_total_collateral == coll
            &&& g.total_matured_pnl - g1.total_matured_pnl == pnl
            &&& r1.h_numerator <= r1.h_denominator
            &&& spec_process_withdrawal_er(program_id, trader_key, receipt_key, trader_account_key, global_state_key,
                r1, v1, g1) == Err::<(WithdrawalReceipt, TraderView, GlobalState), ProgramError>(
                ProgramError::Custom(PerpRouterError::ReceiptAlreadyProcessed))
        }),
{
    let h = spec_compute_h(g.v_total_pool_value, g.c_total_collateral, g.i_insurance_reserve, g.total_matured_pnl);
    let req = request_split(v, r.gross_amount);
    assert(h.0 <= h.1 && h.1 >= 1);
    lemma_scale_le(req.1 as int, h.0 as int, h.1 as int);
}

} // verus!
