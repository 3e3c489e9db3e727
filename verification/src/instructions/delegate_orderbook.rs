//! DelegateOrderbook — hands a market's orderbook to the delegation
//! program (market authority only), once the orderbook exists.

use vstd::prelude::*;

use crate::error::{PerpRouterError, ProgramError};
use crate::state::bytes::{key_eq, Pubkey};
use crate::state::perp_market::PerpMarket;
use crate::validation::loaders::{
    find_orderbook_address, find_perp_market_address, found_address_and_bump_are, found_address_is,
    is_pda_of, is_pda_with_bump, orderbook_seeds, perp_market_seeds,
};

verus! {

/// Instruction parameters: the validator the account is pinned to, if any.
pub struct DelegateOrderbookParams {
    pub validator: Option<Pubkey>,
}

/// The caller must be the market's recorded authority; the market must
/// record an orderbook bump (`InvalidAccountData` otherwise); the market
/// must sit at its PDA, and the orderbook at the market's orderbook PDA
/// with the recorded bump.
pub fn check_delegation(
    program_id: &Pubkey,
    admin: &Pubkey,
    perp_market_key: &Pubkey,
    m: &PerpMarket,
    orderbook_key: &Pubkey,
) -> (r: Result<(), ProgramError>)
    ensures
        r == (if m.authority != *admin {
            Err(ProgramError::Custom(PerpRouterError::InvalidAuthority))
        } else if m.orderbook_bump == 0 {
            Err(ProgramError::InvalidAccountData)
        } else if !is_pda_of(perp_market_key@, perp_market_seeds(m.phoenix_market@), *program_id) {
            Err(ProgramError::Custom(PerpRouterError::InvalidPda))
        } else if !is_pda_with_bump(orderbook_key@, m.orderbook_bump, orderbook_seeds(perp_market_key@), *program_id) {
            Err(ProgramError::Custom(PerpRouterError::InvalidPda))
        } else {
            Ok(())
        }),
{
    if !key_eq(&m.authority, admin) {
        return Err(ProgramError::Custom(PerpRouterError::InvalidAuthority));
    }
    if m.orderbook_bump == 0 {
        return Err(ProgramError::InvalidAccountData);
    }
    if !found_address_is(find_perp_market_address(&m.phoenix_market, program_id), perp_market_key) {
        return Err(ProgramError::Custom(PerpRouterError::InvalidPda));
    }
    if !found_address_and_bump_are(find_orderbook_address(perp_market_key, program_id), orderbook_key, m.orderbook_bump) {
        return Err(ProgramError::Custom(PerpRouterError::InvalidPda));
    }
    Ok(())
}

} // verus!
