//! Decisions of Phoenix's ephemeral-rollup flows: the three-stage deposit
//! (RequestDeposit → ProcessDepositEr → CloseDepositReceipt), the
//! three-stage withdrawal (RequestWithdrawal → ProcessWithdrawalEr →
//! ExecuteWithdrawalBaseChain), session-token dispatch and market
//! delegation. Addresses derived by Phoenix's own loaders arrive as
//! arguments.

use vstd::prelude::*;

use crate::error::ProgramError;
use crate::state::bytes::{key_eq, Pubkey};

verus! {

/// Instruction parameters of RequestDeposit.
pub struct RequestDepositParams {
    pub quote_lots: u64,
    pub base_lots: u64,
}

impl RequestDepositParams {
    /// At least one side must be non-zero.
    pub fn validate(&self) -> (r: Result<(), ProgramError>)
        ensures
            r == (if self.quote_lots > 0 || self.base_lots > 0 { Ok(()) } else { Err(ProgramError::InvalidInstructionData) }),
    {
        if self.quote_lots > 0 || self.base_lots > 0 { Ok(()) } else { Err(ProgramError::InvalidInstructionData) }
    }
}

/// Instruction parameters of DelegateMarket: the validator the market is
/// pinned to, if any.
pub struct DelegateMarketParams {
    pub validator: Option<Pubkey>,
}

/// Token atoms of `lots` lots of `lot_size` atoms: the product, or
/// `InvalidInstructionData` when it overflows.
pub fn lots_to_atoms(lots: u64, lot_size: u64) -> (r: Result<u64, ProgramError>)
    ensures
        r == (if lots * lot_size <= u64::MAX {
            Ok((lots * lot_size) as u64)
        } else {
            Err(ProgramError::InvalidInstructionData)
        }),
{
    match lots.checked_mul(lot_size) {
        Some(a) => Ok(a),
        None => Err(ProgramError::InvalidInstructionData),
    }
}

/// What a deposit or withdrawal receipt of the Phoenix flows records.
#[derive(Copy, Clone, Debug)]
pub struct LotReceipt {
    pub trader: Pubkey,
    pub market: Pubkey,
    pub base_lots: u64,
    pub quote_lots: u64,
    /// 0 until stage 2 has run, then 1.
    pub processed: u8,
}

/// What [`check_receipt`] returns.
pub open spec fn spec_check_receipt(
    r: LotReceipt,
    processed: u8,
    trader_key: Pubkey,
    market_key: Option<Pubkey>,
    receipt_key: Pubkey,
    expected_receipt_key: Pubkey,
) -> Result<(), ProgramError> {
    if r.processed != processed {
        Err(ProgramError::InvalidAccountData)
    } else if r.trader != trader_key {
        Err(ProgramError::InvalidArgument)
    } else if market_key matches Some(m) && r.market != m {
        Err(ProgramError::InvalidArgument)
    } else if receipt_key != expected_receipt_key {
        Err(ProgramError::InvalidSeeds)
    } else {
        Ok(())
    }
}

/// Check a receipt before a stage runs: its processed flag must be
/// `processed` (0 before stage 2, 1 before stage 3), it must belong to
/// the trader and, when `market_key` is given, to the market, and it must
/// sit at its PDA (`expected_receipt_key`, derived from the receipt's
/// market and trader).
pub fn check_receipt(
    r: &LotReceipt,
    processed: u8,
    trader_key: &Pubkey,
    market_key: Option<Pubkey>,
    receipt_key: &Pubkey,
    expected_receipt_key: &Pubkey,
) -> (res: Result<(), ProgramError>)
    ensures
        res == spec_check_receipt(*r, processed, *trader_key, market_key, *receipt_key, *expected_receipt_key),
{
    if r.processed != processed {
        return Err(ProgramError::InvalidAccountData);
    }
    if !key_eq(&r.trader, trader_key) {
        return Err(ProgramError::InvalidArgument);
    }
    match market_key {
        Some(m) => {
            if !key_eq(&r.market, &m) {
                return Err(ProgramError::InvalidArgument);
            }
        },
        None => {},
    }
    if !key_eq(receipt_key, expected_receipt_key) {
        return Err(ProgramError::InvalidSeeds);
    }
    Ok(())
}

/// What stage 2 of a withdrawal debits: each side's request clamped to the
/// trader's free lots on that side; `InsufficientFunds` when both come to
/// zero.
pub open spec fn spec_withdrawal_debit(requested_base: u64, requested_quote: u64, free_base: u64, free_quote: u64) -> Result<(u64, u64), ProgramError> {
    let b = if requested_base <= free_base { requested_base } else { free_base };
    let q = if requested_quote <= free_quote { requested_quote } else { free_quote };
    if b > 0 || q > 0 { Ok((b, q)) } else { Err(ProgramError::InsufficientFunds) }
}

/// Stage 2 of a withdrawal: debit each side's request, clamped to the
/// trader's free lots on that side (see [`spec_withdrawal_debit`]), and
/// record on the receipt the lots debited — what stage 3 pays out — and
/// that it was processed. Returns the lots debited, to take off the
/// trader's free balances. On error the receipt is unchanged.
pub fn withdrawal_debit(receipt: &mut LotReceipt, free_base: u64, free_quote: u64) -> (r: Result<(u64, u64), ProgramError>)
    ensures
        r == spec_withdrawal_debit(old(receipt).base_lots, old(receipt).quote_lots, free_base, free_quote),
        match r {
            Ok((b, q)) => *final(receipt) == (LotReceipt { base_lots: b, quote_lots: q, processed: 1, ..*old(receipt) }),
            Err(_) => *final(receipt) == *old(receipt),
        },
        r matches Ok((b, q)) ==> b <= free_base && q <= free_quote,
{
    let debit_base = if receipt.base_lots <= free_base { receipt.base_lots } else { free_base };
    let debit_quote = if receipt.quote_lots <= free_quote { receipt.quote_lots } else { free_quote };
    if debit_base > 0 || debit_quote > 0 {
        receipt.base_lots = debit_base;
        receipt.quote_lots = debit_quote;
        receipt.processed = 1;
        Ok((debit_base, debit_quote))
    } else {
        Err(ProgramError::InsufficientFunds)
    }
}

/// What [`check_session`] returns.
pub open spec fn spec_check_session(
    token_owner: Pubkey,
    token_session_signer: Pubkey,
    owner_key: Pubkey,
    session_signer_key: Pubkey,
    token_key: Pubkey,
    expected_token_key: Pubkey,
    expired: bool,
) -> Result<(), ProgramError> {
    if token_owner != owner_key {
        Err(ProgramError::InvalidArgument)
    } else if token_session_signer != session_signer_key {
        Err(ProgramError::MissingRequiredSignature)
    } else if token_key != expected_token_key {
        Err(ProgramError::InvalidSeeds)
    } else if expired {
        Err(ProgramError::InvalidAccountData)
    } else {
        Ok(())
    }
}

/// Authorize a session-signed instruction: the token must name the owner
/// passed and the actual signer, sit at its PDA (derived from its owner
/// and signer), and not be expired at the current clock.
pub fn check_session(
    token_owner: &Pubkey,
    token_session_signer: &Pubkey,
    owner_key: &Pubkey,
    session_signer_key: &Pubkey,
    token_key: &Pubkey,
    expected_token_key: &Pubkey,
    expired: bool,
) -> (r: Result<(), ProgramError>)
    ensures
        r == spec_check_session(*token_owner, *token_session_signer, *owner_key, *session_signer_key, *token_key,
            *expected_token_key, expired),
{
    if !key_eq(token_owner, owner_key) {
        return Err(ProgramError::InvalidArgument);
    }
    if !key_eq(token_session_signer, session_signer_key) {
        return Err(ProgramError::MissingRequiredSignature);
    }
    if !key_eq(token_key, expected_token_key) {
        return Err(ProgramError::InvalidSeeds);
    }
    if expired {
        return Err(ProgramError::InvalidAccountData);
    }
    Ok(())
}

/// Check a market before delegating it: the caller must be its recorded
/// authority; the market must have been created as a PDA (non-zero bump);
/// the address and bump derived from its mints and authority must be the
/// market's key and recorded bump.
pub fn check_market_delegation(
    market_authority: &Pubkey,
    authority_key: &Pubkey,
    market_bump: u8,
    market_key: &Pubkey,
    derived_key: &Pubkey,
    derived_bump: u8,
) -> (r: Result<(), ProgramError>)
    ensures
        r == (if *market_authority != *authority_key {
            Err(ProgramError::InvalidArgument)
        } else if market_bump == 0 {
            Err(ProgramError::InvalidAccountData)
        } else if !(*derived_key == *market_key && derived_bump == market_bump) {
            Err(ProgramError::InvalidSeeds)
        } else {
            Ok(())
        }),
{
    if !key_eq(market_authority, authority_key) {
        return Err(ProgramError::InvalidArgument);
    }
    if market_bump == 0 {
        return Err(ProgramError::InvalidAccountData);
    }
    if !(key_eq(derived_key, market_key) && derived_bump == market_bump) {
        return Err(ProgramError::InvalidSeeds);
    }
    Ok(())
}

} // verus!
