//! DelegatePerpMarket — hands a market account to the delegation program
//! (market authority only).

use vstd::prelude::*;

use crate::error::{PerpRouterError, ProgramError};
use crate::state::bytes::{key_eq, Pubkey};
use crate::state::perp_market::PerpMarket;
use crate::validation::loaders::{find_perp_market_address, found_address_and_bump_are, is_pda_with_bump, perp_market_seeds};

verus! {

/// Instruction parameters: the validator the account is pinned to, if any.
pub struct DelegatePerpMarketParams {
    pub validator: Option<Pubkey>,
}

/// The caller must be the market's recorded authority, and the account
/// the PDA of its Phoenix market with its recorded bump.
pub fn check_delegation(program_id: &Pubkey, admin: &Pubkey, perp_market_key: &Pubkey, m: &PerpMarket) -> (r: Result<(), ProgramError>)
    ensures
        r == (if m.authority != *admin {
            Err(ProgramError::Custom(PerpRouterError::InvalidAuthority))
        } else if !is_pda_with_bump(perp_market_key@, m.bump, perp_market_seeds(m.phoenix_market@), *program_id) {
            Err(ProgramError::Custom(PerpRouterError::InvalidPda))
        } else {
            Ok(())
        }),
{
    if !key_eq(&m.authority, admin) {
        return Err(ProgramError::Custom(PerpRouterError::InvalidAuthority));
    }
    if !found_address_and_bump_are(find_perp_market_address(&m.phoenix_market, program_id), perp_market_key, m.bump) {
        return Err(ProgramError::Custom(PerpRouterError::InvalidPda));
    }
    Ok(())
}

} // verus!
