//! DelegateGlobalState — hands the global account to the delegation
//! program (admin only), so that the rollup can write it.

use vstd::prelude::*;

use crate::error::{PerpRouterError, ProgramError};
use crate::state::bytes::{key_eq, Pubkey};
use crate::state::global::GlobalState;
use crate::validation::loaders::{find_global_state_address, found_address_and_bump_are, global_state_seeds, is_pda_with_bump};

verus! {

/// Instruction parameters: the validator the account is pinned to, if any.
pub struct DelegateGlobalStateParams {
    pub validator: Option<Pubkey>,
}

/// The caller must be the recorded admin, and the account the global PDA
/// with its recorded bump.
pub fn check_delegation(program_id: &Pubkey, admin: &Pubkey, global_state_key: &Pubkey, g: &GlobalState) -> (r: Result<(), ProgramError>)
    ensures
        r == (if g.admin != *admin {
            Err(ProgramError::Custom(PerpRouterError::InvalidAuthority))
        } else if !is_pda_with_bump(global_state_key@, g.bump, global_state_seeds(), *program_id) {
            Err(ProgramError::Custom(PerpRouterError::InvalidPda))
        } else {
            Ok(())
        }),
{
    if !key_eq(&g.admin, admin) {
        return Err(ProgramError::Custom(PerpRouterError::InvalidAuthority));
    }
    if !found_address_and_bump_are(find_global_state_address(program_id), global_state_key, g.bump) {
        return Err(ProgramError::Custom(PerpRouterError::InvalidPda));
    }
    Ok(())
}

} // verus!
