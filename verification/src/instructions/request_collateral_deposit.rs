//! RequestCollateralDeposit — base layer, stage 1 of 3 of a deposit: the
//! trader's tokens move into the collateral vault and a `DepositReceipt`
//! is opened at the trader's receipt PDA (then delegated, with stage 2
//! queued as its post-delegation action).

use vstd::prelude::*;

use crate::error::{PerpRouterError, ProgramError};
use crate::state::bytes::Pubkey;
use crate::state::perp_market::PerpMarket;
use crate::state::receipts::DepositReceipt;
use crate::state::vault::{find_collateral_vault_address, vault_address};
use crate::validation::loaders::{
    deposit_receipt_seeds, find_deposit_receipt_address, find_perp_market_address, found_address_is,
    is_pda_of, perp_market_seeds, program_address,
};

verus! {

/// Instruction parameters of RequestCollateralDeposit.
pub struct RequestCollateralDepositParams {
    pub amount: u64,
}

impl RequestCollateralDepositParams {
    /// The amount must be positive.
    pub fn validate(&self) -> (r: Result<(), ProgramError>)
        ensures
            r == (if self.amount > 0 { Ok(()) } else { Err(ProgramError::InvalidInstructionData) }),
    {
        if self.amount > 0 { Ok(()) } else { Err(ProgramError::InvalidInstructionData) }
    }
}

/// Whether `key` is the collateral vault of `mint`.
pub open spec fn is_vault_of(key: Pubkey, mint: Pubkey, program_id: Pubkey) -> bool {
    vault_address(mint, program_id) == Some(key@)
}

/// The receipt that stage 1 opens, or the error it stops with.
pub open spec fn spec_open_deposit_receipt(
    program_id: Pubkey,
    trader: Pubkey,
    perp_market_key: Pubkey,
    market: PerpMarket,
    quote_mint: Pubkey,
    vault_key: Pubkey,
    receipt_key: Pubkey,
    receipt_uninitialized: bool,
    amount: u64,
) -> Result<DepositReceipt, ProgramError> {
    if !is_pda_of(perp_market_key@, perp_market_seeds(market.phoenix_market@), program_id) {
        Err(ProgramError::Custom(PerpRouterError::InvalidPda))
    } else if !is_vault_of(vault_key, quote_mint, program_id) {
        Err(ProgramError::Custom(PerpRouterError::InvalidPda))
    } else if !is_pda_of(receipt_key@, deposit_receipt_seeds(trader@), program_id) {
        Err(ProgramError::Custom(PerpRouterError::InvalidPda))
    } else if !receipt_uninitialized {
        Err(ProgramError::Custom(PerpRouterError::AlreadyInitialized))
    } else {
        Ok(DepositReceipt {
            trader,
            market: perp_market_key,
            amount,
            processed: 0,
            bump: program_address(deposit_receipt_seeds(trader@), program_id@)->Some_0.1,
            _pad: [0u8, 0, 0, 0, 0, 0],
        })
    }
}

/// Validate the market, vault and receipt accounts and build the receipt
/// to write: `perp_market_key` must be the PDA of the market's Phoenix
/// market, `vault_key` the collateral vault of `quote_mint`, and
/// `receipt_key` the trader's deposit-receipt PDA, still uninitialized
/// (owned by the system program, no data).
pub fn open_deposit_receipt(
    program_id: &Pubkey,
    trader: &Pubkey,
    perp_market_key: &Pubkey,
    market: &PerpMarket,
    quote_mint: &Pubkey,
    vault_key: &Pubkey,
    receipt_key: &Pubkey,
    receipt_uninitialized: bool,
    amount: u64,
) -> (r: Result<DepositReceipt, ProgramError>)
    ensures
        r == spec_open_deposit_receipt(
            *program_id, *trader, *perp_market_key, *market, *quote_mint, *vault_key, *receipt_key,
            receipt_uninitialized, amount,
        ),
{
    let market_pda = find_perp_market_address(&market.phoenix_market, program_id);
    if !found_address_is(market_pda, perp_market_key) {
        return Err(ProgramError::Custom(PerpRouterError::InvalidPda));
    }
    let vault_ok = match find_collateral_vault_address(quote_mint, program_id) {
        Some(v) => crate::state::bytes::key_eq(&v, vault_key),
        None => false,
    };
    if !vault_ok {
        return Err(ProgramError::Custom(PerpRouterError::InvalidPda));
    }
    let receipt_pda = find_deposit_receipt_address(trader, program_id);
    if !found_address_is(receipt_pda, receipt_key) {
        return Err(ProgramError::Custom(PerpRouterError::InvalidPda));
    }
    if !receipt_uninitialized {
        return Err(ProgramError::Custom(PerpRouterError::AlreadyInitialized));
    }
    let bump = match receipt_pda {
        Some((_k, b)) => b,
        None => 0,
    };
    Ok(DepositReceipt {
        trader: *trader,
        market: *perp_market_key,
        amount,
        processed: 0,
        bump,
        _pad: [0u8, 0, 0, 0, 0, 0],
    })
}

} // verus!
