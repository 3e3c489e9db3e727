//! DirectWithdraw — a withdrawal settled in one step, with the H haircut
//! on matured PnL; collateral is senior and paid in full.

use vstd::prelude::*;

use crate::error::{PerpRouterError, ProgramError};
use crate::instructions::direct_open_position::sat_sub;
use crate::risk::haircut::{compute_h, spec_compute_h, spec_split_withdrawal, split_withdrawal};
use crate::state::bytes::{key_eq, Pubkey};
use crate::state::global::GlobalState;
use crate::state::trader_account::{TraderAccount, TraderView};
use crate::instructions::direct_deposit::{check_vault, spec_direct_deposit};
use crate::instructions::request_collateral_deposit::is_vault_of;
use crate::validation::loaders::{
    check_global_state_key, check_perp_authority_key, check_trader_account_key, global_state_seeds, is_pda_of,
    perp_authority_seeds, trader_account_seeds,
};

verus! {

/// The keys of the accounts a direct withdrawal was given, with the
/// program's id.
#[derive(Copy, Clone, Debug)]
pub struct WithdrawKeys {
    pub program_id: Pubkey,
    pub quote_mint: Pubkey,
    pub collateral_vault: Pubkey,
    pub perp_authority: Pubkey,
    pub global_state: Pubkey,
    pub trader_account: Pubkey,
}

/// Instruction parameters of DirectWithdraw.
pub struct DirectWithdrawParams {
    /// Gross amount requested; the haircut applies to its PnL part.
    pub amount: u64,
}

/// How a gross request splits: collateral first (up to the trader's
/// collateral), then matured PnL (up to the trader's matured PnL).
pub open spec fn request_split(v: TraderView, amount: u64) -> (u64, u64) {
    let coll = if amount <= v.collateral { amount } else { v.collateral };
    let rest = (amount - coll) as u64;
    (coll, if rest <= v.pnl_matured { rest } else { v.pnl_matured })
}

/// The split of a request and the haircut, computed from the account and
/// the pool: `(collateral part, pnl part, net payout, h_num, h_den)`.
pub open spec fn spec_withdrawal_terms(v: TraderView, g: GlobalState, amount: u64) -> Result<(u64, u64, u64, u64, u64), ProgramError> {
    let h = spec_compute_h(g.v_total_pool_value, g.c_total_collateral, g.i_insurance_reserve, g.total_matured_pnl);
    let req = request_split(v, amount);
    match spec_split_withdrawal(req.0, req.1, h.0, h.1) {
        Err(e) => Err(ProgramError::Custom(e)),
        Ok(split) => Ok((req.0, req.1, split.2, h.0, h.1)),
    }
}

/// Compute the split and the haircut (see [`spec_withdrawal_terms`]).
pub fn withdrawal_terms(t: &TraderAccount, g: &GlobalState, amount: u64) -> (r: Result<(u64, u64, u64, u64, u64), ProgramError>)
    ensures
        r == spec_withdrawal_terms(t@, *g, amount),
        // The haircut is a fraction in [0, 1], so the split always
        // succeeds: the payout never exceeds the request, and the
        // collateral part is paid in full.
        r is Ok,
        r->Ok_0.0 <= r->Ok_0.2 <= amount,
{
    let (h_num, h_den) = compute_h(g.v_total_pool_value, g.c_total_collateral, g.i_insurance_reserve, g.total_matured_pnl);
    let coll_req = if amount <= t.collateral { amount } else { t.collateral };
    let rest = amount - coll_req;
    let pnl_req = if rest <= t.pnl_matured { rest } else { t.pnl_matured };
    proof {
        crate::risk::haircut::lemma_scale_le(pnl_req as int, h_num as int, h_den as int);
    }
    match split_withdrawal(coll_req, pnl_req, h_num, h_den) {
        Ok((_c, _p, total)) => Ok((coll_req, pnl_req, total, h_num, h_den)),
        Err(e) => Err(ProgramError::Custom(e)),
    }
}

/// Outcome of DirectWithdraw: trader account, global state, net payout.
pub open spec fn spec_direct_withdraw(
    keys: WithdrawKeys,
    v: TraderView,
    g: GlobalState,
    signer: Seq<u8>,
    amount: u64,
) -> Result<(TraderView, GlobalState, u64), ProgramError> {
    if amount == 0 {
        Err(ProgramError::InvalidInstructionData)
    } else if !is_vault_of(keys.collateral_vault, keys.quote_mint, keys.program_id) {
        Err(ProgramError::Custom(PerpRouterError::InvalidPda))
    } else if !is_pda_of(keys.perp_authority@, perp_authority_seeds(), keys.program_id) {
        Err(ProgramError::Custom(PerpRouterError::InvalidPda))
    } else if !is_pda_of(keys.global_state@, global_state_seeds(), keys.program_id) {
        Err(ProgramError::Custom(PerpRouterError::InvalidPda))
    } else if !is_pda_of(keys.trader_account@, trader_account_seeds(v.owner), keys.program_id) {
        Err(ProgramError::Custom(PerpRouterError::InvalidPda))
    } else if v.owner != signer {
        Err(ProgramError::Custom(PerpRouterError::InvalidAuthority))
    } else {
        match spec_withdrawal_terms(v, g, amount) {
            Err(e) => Err(e),
            Ok((coll, pnl, net, _n, _d)) => Ok((
                TraderView {
                    collateral: (v.collateral - coll) as u64,
                    pnl_matured: (v.pnl_matured - pnl) as u64,
                    ..v
                },
                GlobalState {
                    v_total_pool_value: sat_sub(g.v_total_pool_value as int, net as int) as u64,
                    c_total_collateral: sat_sub(g.c_total_collateral as int, coll as int) as u64,
                    total_matured_pnl: sat_sub(g.total_matured_pnl as int, pnl as int) as u64,
                    ..g
                },
                net,
            )),
        }
    }
}

/// Withdraw `amount` gross: debit the collateral part and the PnL part
/// from the account, and take the net payout, the collateral part and the
/// PnL part off the pool's value, total collateral and total matured PnL
/// (saturating). Returns the net payout to transfer. On error nothing
/// changes.
pub fn process(
    keys: &WithdrawKeys,
    t: &mut TraderAccount,
    g: &mut GlobalState,
    signer: &Pubkey,
    p: &DirectWithdrawParams,
) -> (r: Result<u64, ProgramError>)
    ensures
        match spec_direct_withdraw(*keys, old(t)@, *old(g), signer@, p.amount) {
            Ok((v, ng, net)) => r == Ok::<u64, ProgramError>(net) && final(t)@ == v && *final(g) == ng,
            Err(e) => r == Err::<u64, ProgramError>(e) && *final(t) == *old(t) && *final(g) == *old(g),
        },
{
    if p.amount == 0 {
        return Err(ProgramError::InvalidInstructionData);
    }
    match check_vault(&keys.program_id, &keys.quote_mint, &keys.collateral_vault) {
        Ok(()) => {},
        Err(e) => { return Err(e); },
    }
    match check_perp_authority_key(&keys.program_id, &keys.perp_authority) {
        Ok(()) => {},
        Err(e) => { return Err(e); },
    }
    match check_global_state_key(&keys.program_id, &keys.global_state) {
        Ok(()) => {},
        Err(e) => { return Err(e); },
    }
    match check_trader_account_key(&keys.program_id, &t.owner, &keys.trader_account) {
        Ok(()) => {},
        Err(e) => { return Err(e); },
    }
    if !key_eq(&t.owner, signer) {
        return Err(ProgramError::Custom(PerpRouterError::InvalidAuthority));
    }
    let (coll_req, pnl_req, net, _h_num, _h_den) = match withdrawal_terms(t, g, p.amount) {
        Ok(terms) => terms,
        Err(e) => { return Err(e); },
    };
    t.collateral = t.collateral - coll_req;
    t.pnl_matured = t.pnl_matured - pnl_req;
    g.v_total_pool_value = g.v_total_pool_value.saturating_sub(net);
    g.c_total_collateral = g.c_total_collateral.saturating_sub(coll_req);
    g.total_matured_pnl = g.total_matured_pnl.saturating_sub(pnl_req);
    Ok(net)
}

/// Collateral is senior: a request no larger than the trader's collateral
/// is paid in full whatever the pool's balance sheet — all of it from
/// collateral, none from PnL, so no haircut touches it.
pub proof fn lemma_collateral_paid_in_full(v: TraderView, g: GlobalState, amount: u64)
    requires
        amount <= v.collateral,
    ensures
        spec_withdrawal_terms(v, g, amount) matches Ok((coll, pnl, net, _n, _d))
            && coll == amount && pnl == 0 && net == amount,
{
    let h = spec_compute_h(g.v_total_pool_value, g.c_total_collateral, g.i_insurance_reserve, g.total_matured_pnl);
    assert(h.1 >= 1);
    assert(0 * h.0 == 0) by (nonlinear_arith);
}

/// A direct deposit of `amount` followed by a direct withdrawal of
/// `amount` by the same signer, through the same trader account and
/// global state, pays `amount` back and leaves the trader account and the
/// global state exactly as they were.
pub proof fn lemma_deposit_then_withdraw(
    keys: WithdrawKeys,
    v: TraderView,
    g: GlobalState,
    signer: Seq<u8>,
    amount: u64,
)
    requires
        spec_direct_deposit(keys.program_id, keys.trader_account, keys.global_state, v, g, signer, amount) is Ok,
        is_vault_of(keys.collateral_vault, keys.quote_mint, keys.program_id),
        is_pda_of(keys.perp_authority@, perp_authority_seeds(), keys.program_id),
    ensures
        ({
            let (v1, g1) = spec_direct_deposit(keys.program_id, keys.trader_account, keys.global_state, v, g,
                signer, amount)->Ok_0;
            spec_direct_withdraw(keys, v1, g1, signer, amount) == Ok::<(TraderView, GlobalState, u64), ProgramError>((v, g, amount))
        }),
{
    let (v1, g1) = spec_direct_deposit(keys.program_id, keys.trader_account, keys.global_state, v, g, signer, amount)->Ok_0;
    lemma_collateral_paid_in_full(v1, g1, amount);
    let w = spec_direct_withdraw(keys, v1, g1, signer, amount)->Ok_0;
    assert(w.0 == v);
    assert(w.1 == g);
}

} // verus!
