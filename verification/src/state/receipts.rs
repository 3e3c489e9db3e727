//! Receipts carrying a deposit or a withdrawal across the three stages of
//! the cross-layer flows.

use vstd::prelude::*;

use crate::state::bytes::Pubkey;

verus! {

#[derive(Copy, Clone, Debug)]
pub struct DepositReceipt {
    pub trader: Pubkey,
    pub market: Pubkey,
    pub amount: u64,
    /// 0 until the deposit is credited, then 1.
    pub processed: u8,
    pub bump: u8,
    pub _pad: [u8; 6],
}

#[derive(Copy, Clone, Debug)]
pub struct WithdrawalReceipt {
    pub trader: Pubkey,
    pub market: Pubkey,
    /// What the trader asked for (before the haircut).
    pub gross_amount: u64,
    /// What the trader is paid (after the haircut).
    pub net_amount: u64,
    /// The haircut `h_numerator / h_denominator` applied.
    pub h_numerator: u64,
    pub h_denominator: u64,
    /// 0 until the withdrawal is debited, then 1.
    pub processed: u8,
    pub bump: u8,
    pub _pad: [u8; 6],
}

} // verus!
