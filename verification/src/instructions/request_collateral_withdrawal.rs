//! RequestCollateralWithdrawal — base layer, stage 1 of 3 of a
//! withdrawal: a `WithdrawalReceipt` for the gross amount is opened at the
//! trader's receipt PDA (then delegated, with stage 2 — where the haircut
//! runs — queued as its post-delegation action). No tokens move yet.

use vstd::prelude::*;

use crate::error::{PerpRouterError, ProgramError};
use crate::instructions::request_collateral_deposit::is_vault_of;
use crate::state::bytes::{key_eq, Pubkey};
use crate::state::receipts::WithdrawalReceipt;
use crate::state::vault::find_collateral_vault_address;
use crate::validation::loaders::{
    find_withdrawal_receipt_address, found_address_is, is_pda_of, program_address,
    withdrawal_receipt_seeds,
};

verus! {

/// Instruction parameters of RequestCollateralWithdrawal.
pub struct RequestCollateralWithdrawalParams {
    /// Gross amount requested, before the haircut.
    pub amount: u64,
}

impl RequestCollateralWithdrawalParams {
    /// The amount must be positive.
    pub fn validate(&self) -> (r: Result<(), ProgramError>)
        ensures
            r == (if self.amount > 0 { Ok(()) } else { Err(ProgramError::InvalidInstructionData) }),
    {
        if self.amount > 0 { Ok(()) } else { Err(ProgramError::InvalidInstructionData) }
    }
}

/// The receipt that stage 1 opens, or the error it stops with.
pub open spec fn spec_open_withdrawal_receipt(
    program_id: Pubkey,
    trader: Pubkey,
    perp_market_key: Pubkey,
    quote_mint: Pubkey,
    vault_key: Pubkey,
    receipt_key: Pubkey,
    receipt_uninitialized: bool,
    amount: u64,
) -> Result<WithdrawalReceipt, ProgramError> {
    if !is_vault_of(vault_key, quote_mint, program_id) {
        Err(ProgramError::Custom(PerpRouterError::InvalidPda))
    } else if !is_pda_of(receipt_key@, withdrawal_receipt_seeds(trader@), program_id) {
        Err(ProgramError::Custom(PerpRouterError::InvalidPda))
    } else if !receipt_uninitialized {
        Err(ProgramError::Custom(PerpRouterError::AlreadyInitialized))
    } else {
        Ok(WithdrawalReceipt {
            trader,
            market: perp_market_key,
            gross_amount: amount,
            net_amount: 0,
            h_numerator: 0,
            h_denominator: 0,
            processed: 0,
            bump: program_address(withdrawal_receipt_seeds(trader@), program_id@)->Some_0.1,
            _pad: [0u8, 0, 0, 0, 0, 0],
        })
    }
}

/// Validate the vault and receipt accounts and build the receipt to
/// write: `vault_key` must be the collateral vault of `quote_mint` and
/// `receipt_key` the trader's withdrawal-receipt PDA, still uninitialized.
/// The net amount and the haircut stay zero until stage 2.
pub fn open_withdrawal_receipt(
    program_id: &Pubkey,
    trader: &Pubkey,
    perp_market_key: &Pubkey,
    quote_mint: &Pubkey,
    vault_key: &Pubkey,
    receipt_key: &Pubkey,
    receipt_uninitialized: bool,
    amount: u64,
) -> (r: Result<WithdrawalReceipt, ProgramError>)
    ensures
        r == spec_open_withdrawal_receipt(
            *program_id, *trader, *perp_market_key, *quote_mint, *vault_key, *receipt_key,
            receipt_uninitialized, amount,
        ),
{
    let vault_ok = match find_collateral_vault_address(quote_mint, program_id) {
        Some(v) => key_eq(&v, vault_key),
        None => false,
    };
    if !vault_ok {
        return Err(ProgramError::Custom(PerpRouterError::InvalidPda));
    }
    let receipt_pda = find_withdrawal_receipt_address(trader, program_id);
    if !found_address_is(receipt_pda, receipt_key) {
        return Err(ProgramError::Custom(PerpRouterError::InvalidPda));
    }
    if !receipt_uninitialized {
        return Err(ProgramError::Custom(PerpRouterError::AlreadyInitialized));
    }
    let bump = match receipt_pda {
        Some((_k, b)) => b,
        None => 0,
    };
    Ok(WithdrawalReceipt {
        trader: *trader,
        market: *perp_market_key,
        gross_amount: amount,
        net_amount: 0,
        h_numerator: 0,
        h_denominator: 0,
        processed: 0,
        bump,
        _pad: [0u8, 0, 0, 0, 0, 0],
    })
}

} // verus!
