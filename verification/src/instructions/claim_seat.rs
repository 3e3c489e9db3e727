//! ClaimSeat — registers the signer on a market's orderbook (the seat
//! itself is taken by the matching engine).

use vstd::prelude::*;

use crate::error::{PerpRouterError, ProgramError};
use crate::state::bytes::Pubkey;
use crate::validation::loaders::{find_orderbook_address, found_address_is, is_pda_of, orderbook_seeds};

verus! {

/// `orderbook_key` must be the orderbook PDA of `perp_market_key`;
/// `InvalidPda` otherwise.
pub fn check_orderbook(program_id: &Pubkey, perp_market_key: &Pubkey, orderbook_key: &Pubkey) -> (r: Result<(), ProgramError>)
    ensures
        r == (if is_pda_of(orderbook_key@, orderbook_seeds(perp_market_key@), *program_id) {
            Ok(())
        } else {
            Err(ProgramError::Custom(PerpRouterError::InvalidPda))
        }),
{
    if found_address_is(find_orderbook_address(perp_market_key, program_id), orderbook_key) {
        Ok(())
    } else {
        Err(ProgramError::Custom(PerpRouterError::InvalidPda))
    }
}

} // verus!
