//! DelegateTraderAccount — hands the signer's trader account to the
//! delegation program.

use vstd::prelude::*;

use crate::error::{PerpRouterError, ProgramError};
use crate::state::bytes::{key_eq, Pubkey};
use crate::state::trader_account::TraderAccount;
use crate::validation::loaders::{find_trader_account_address, found_address_and_bump_are, is_pda_with_bump, trader_account_seeds};

verus! {

/// Instruction parameters: the validator the account is pinned to, if any.
pub struct DelegateTraderAccountParams {
    pub validator: Option<Pubkey>,
}

/// The caller must be the account's recorded owner, and the account the
/// owner's trader PDA with its recorded bump.
pub fn check_delegation(program_id: &Pubkey, owner: &Pubkey, trader_account_key: &Pubkey, t: &TraderAccount) -> (r: Result<(), ProgramError>)
    ensures
        r == (if t.owner != *owner {
            Err(ProgramError::Custom(PerpRouterError::InvalidAuthority))
        } else if !is_pda_with_bump(trader_account_key@, t.bump, trader_account_seeds(owner@), *program_id) {
            Err(ProgramError::Custom(PerpRouterError::InvalidPda))
        } else {
            Ok(())
        }),
{
    if !key_eq(&t.owner, owner) {
        return Err(ProgramError::Custom(PerpRouterError::InvalidAuthority));
    }
    if !found_address_and_bump_are(find_trader_account_address(owner, program_id), trader_account_key, t.bump) {
        return Err(ProgramError::Custom(PerpRouterError::InvalidPda));
    }
    Ok(())
}

} // verus!
