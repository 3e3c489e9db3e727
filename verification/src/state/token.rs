//! Balances of SPL token accounts, read from their packed data.

use vstd::prelude::*;

use crate::error::ProgramError;
use crate::state::bytes::le_unsigned;

use spl_token::solana_program::program_error::ProgramError as TokenProgramError;
use spl_token::solana_program::program_pack::Pack;

verus! {

/// Length of a packed SPL token account.
pub const TOKEN_ACCOUNT_LEN: usize = 165;

/// What unpacking an SPL token account from `data` gives: its amount, or
/// the error the unpacking reports.
pub uninterp spec fn token_account_amount(data: Seq<u8>) -> Result<u64, ProgramError>;

/// `spl_token::state::Account::unpack` (the `Pack` trait's `unpack`),
/// keeping the amount. The result is named by `token_account_amount`;
/// beside that, the source shows that data of any length but 165 is
/// refused with `InvalidAccountData`, that the amount is the little-endian
/// `u64` at bytes 64..72, and that the errors are `UninitializedAccount`
/// (state byte says uninitialized) or `InvalidAccountData` (malformed).
#[verifier::external_body]
fn unpack_token_amount(data: &[u8]) -> (r: Result<u64, ProgramError>)
    ensures
        r == token_account_amount(data@),
        data@.len() != TOKEN_ACCOUNT_LEN ==> r is Err && r->Err_0 == ProgramError::InvalidAccountData,
        r is Ok ==> r->Ok_0 == le_unsigned(data@.subrange(64, 72)),
        r is Err ==> r->Err_0 == ProgramError::InvalidAccountData || r->Err_0 == ProgramError::UninitializedAccount,
{
    match spl_token::state::Account::unpack(data) {
        Ok(account) => Ok(account.amount),
        Err(TokenProgramError::UninitializedAccount) => Err(ProgramError::UninitializedAccount),
        Err(_) => Err(ProgramError::InvalidAccountData),
    }
}

/// The balance of the token account whose data is `data`.
pub fn token_balance(data: &[u8]) -> (r: Result<u64, ProgramError>)
    ensures
        r == token_account_amount(data@),
        data@.len() != TOKEN_ACCOUNT_LEN ==> r == Err::<u64, ProgramError>(ProgramError::InvalidAccountData),
        r matches Ok(amount) ==> amount == le_unsigned(data@.subrange(64, 72)),
{
    unpack_token_amount(data)
}

} // verus!
