//! ExecuteCollateralWithdrawalBaseChain — base layer, stage 3 of 3 of a
//! withdrawal: once the receipt is back from the rollup, processed, the
//! net payout is transferred from the collateral vault (signed by the
//! router's authority PDA) and the receipt is closed.

use vstd::prelude::*;

use crate::error::{PerpRouterError, ProgramError};
use crate::instructions::request_collateral_deposit::is_vault_of;
use crate::state::bytes::{key_eq, Pubkey};
use crate::state::receipts::WithdrawalReceipt;
use crate::state::vault::find_collateral_vault_address;
use crate::validation::loaders::{
    find_perp_authority_address, find_withdrawal_receipt_address, found_address_is, is_pda_of,
    perp_authority_seeds, program_address, withdrawal_receipt_seeds,
};

verus! {

/// What stage 3 pays and signs with — `(net payout, authority bump)` — or
/// the first check that fails.
pub open spec fn spec_payout_plan(
    program_id: Pubkey,
    trader_key: Pubkey,
    receipt_key: Pubkey,
    receipt: WithdrawalReceipt,
    quote_mint: Pubkey,
    vault_key: Pubkey,
    authority_key: Pubkey,
) -> Result<(u64, u8), ProgramError> {
    if receipt.processed != 1 {
        Err(ProgramError::Custom(PerpRouterError::ReceiptNotProcessed))
    } else if receipt.trader != trader_key {
        Err(ProgramError::InvalidArgument)
    } else if !is_pda_of(receipt_key@, withdrawal_receipt_seeds(receipt.trader@), program_id) {
        Err(ProgramError::Custom(PerpRouterError::InvalidPda))
    } else if !is_vault_of(vault_key, quote_mint, program_id) {
        Err(ProgramError::Custom(PerpRouterError::InvalidPda))
    } else if !is_pda_of(authority_key@, perp_authority_seeds(), program_id) {
        Err(ProgramError::Custom(PerpRouterError::InvalidPda))
    } else {
        Ok((receipt.net_amount, program_address(perp_authority_seeds(), program_id@)->Some_0.1))
    }
}

/// Check that the receipt was processed, belongs to the trader and sits
/// at the trader's receipt PDA, that `vault_key` is the collateral vault
/// of `quote_mint` and `authority_key` the router's authority PDA; return
/// the net payout to transfer (none when zero) and the authority's bump
/// seed to sign with. The receipt is then closed into the trader with
/// [`crate::instructions::close_collateral_deposit_receipt::close_into`].
pub fn payout_plan(
    program_id: &Pubkey,
    trader_key: &Pubkey,
    receipt_key: &Pubkey,
    receipt: &WithdrawalReceipt,
    quote_mint: &Pubkey,
    vault_key: &Pubkey,
    authority_key: &Pubkey,
) -> (r: Result<(u64, u8), ProgramError>)
    ensures
        r == spec_payout_plan(*program_id, *trader_key, *receipt_key, *receipt, *quote_mint, *vault_key, *authority_key),
{
    if receipt.processed != 1 {
        return Err(ProgramError::Custom(PerpRouterError::ReceiptNotProcessed));
    }
    if !key_eq(&receipt.trader, trader_key) {
        return Err(ProgramError::InvalidArgument);
    }
    if !found_address_is(find_withdrawal_receipt_address(&receipt.trader, program_id), receipt_key) {
        return Err(ProgramError::Custom(PerpRouterError::InvalidPda));
    }
    let vault_ok = match find_collateral_vault_address(quote_mint, program_id) {
        Some(v) => key_eq(&v, vault_key),
        None => false,
    };
    if !vault_ok {
        return Err(ProgramError::Custom(PerpRouterError::InvalidPda));
    }
    let authority = find_perp_authority_address(program_id);
    if !found_address_is(authority, authority_key) {
        return Err(ProgramError::Custom(PerpRouterError::InvalidPda));
    }
    let bump = match authority {
        Some((_k, b)) => b,
        None => 0,
    };
    Ok((receipt.net_amount, bump))
}

} // verus!
