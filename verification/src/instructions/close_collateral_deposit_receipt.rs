//! CloseCollateralDepositReceipt — base layer, stage 3 of 3 of a deposit:
//! once the receipt is back from the rollup, processed, it is closed and
//! its rent returned to the trader.

use vstd::prelude::*;

use crate::error::{PerpRouterError, ProgramError};
use crate::state::bytes::{key_eq, Pubkey};
use crate::state::receipts::DepositReceipt;
use crate::validation::loaders::{deposit_receipt_seeds, find_deposit_receipt_address, found_address_is, is_pda_of};

verus! {

/// The lamports of an account that receives a closed account's balance:
/// `dest + closed`, or `InvalidAccountData` on overflow.
pub fn close_into(dest_lamports: u64, closed_lamports: u64) -> (r: Result<u64, ProgramError>)
    ensures
        r == (if dest_lamports + closed_lamports <= u64::MAX {
            Ok((dest_lamports + closed_lamports) as u64)
        } else {
            Err(ProgramError::InvalidAccountData)
        }),
{
    match dest_lamports.checked_add(closed_lamports) {
        Some(total) => Ok(total),
        None => Err(ProgramError::InvalidAccountData),
    }
}

/// The trader's lamports after the close, or the error the close stops with.
pub open spec fn spec_close_deposit_receipt(
    program_id: Pubkey,
    trader_key: Pubkey,
    receipt_key: Pubkey,
    receipt: DepositReceipt,
    trader_lamports: u64,
    receipt_lamports: u64,
) -> Result<u64, ProgramError> {
    if receipt.processed != 1 {
        Err(ProgramError::Custom(PerpRouterError::ReceiptNotProcessed))
    } else if receipt.trader != trader_key {
        Err(ProgramError::InvalidArgument)
    } else if !is_pda_of(receipt_key@, deposit_receipt_seeds(receipt.trader@), program_id) {
        Err(ProgramError::Custom(PerpRouterError::InvalidPda))
    } else if trader_lamports + receipt_lamports > u64::MAX {
        Err(ProgramError::InvalidAccountData)
    } else {
        Ok((trader_lamports + receipt_lamports) as u64)
    }
}

/// Check that the receipt was processed, belongs to the trader and sits
/// at the trader's receipt PDA; return the trader's lamports once the
/// receipt's are added (the receipt then holds none and is handed back to
/// the system program).
pub fn process(
    program_id: &Pubkey,
    trader_key: &Pubkey,
    receipt_key: &Pubkey,
    receipt: &DepositReceipt,
    trader_lamports: u64,
    receipt_lamports: u64,
) -> (r: Result<u64, ProgramError>)
    ensures
        r == spec_close_deposit_receipt(*program_id, *trader_key, *receipt_key, *receipt, trader_lamports, receipt_lamports),
{
    if receipt.processed != 1 {
        return Err(ProgramError::Custom(PerpRouterError::ReceiptNotProcessed));
    }
    if !key_eq(&receipt.trader, trader_key) {
        return Err(ProgramError::InvalidArgument);
    }
    let pda = find_deposit_receipt_address(&receipt.trader, program_id);
    if !found_address_is(pda, receipt_key) {
        return Err(ProgramError::Custom(PerpRouterError::InvalidPda));
    }
    close_into(trader_lamports, receipt_lamports)
}

} // verus!
