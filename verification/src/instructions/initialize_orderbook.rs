//! InitializeOrderbook — creates the orderbook PDA of a perp market (once
//! per market, by the market's authority) and records its bump on the
//! market.

use vstd::prelude::*;

use crate::error::{PerpRouterError, ProgramError};
use crate::state::bytes::{key_eq, Pubkey};
use crate::state::perp_market::PerpMarket;
use crate::validation::loaders::{
    find_orderbook_address, find_perp_market_address, found_address_is, is_pda_of, orderbook_seeds,
    perp_market_seeds, program_address,
};

verus! {

/// Instruction parameters of InitializeOrderbook.
pub struct InitializeOrderbookParams {
    pub tick_size_in_quote_lots_per_base_unit: u64,
    pub base_lots_per_base_unit: u64,
    pub taker_fee_bps: u16,
}

impl InitializeOrderbookParams {
    /// Lot and tick sizes must be positive and the fee at most 100%.
    pub fn validate(&self) -> (r: Result<(), ProgramError>)
        ensures
            r == (if self.base_lots_per_base_unit > 0 && self.tick_size_in_quote_lots_per_base_unit > 0
                && self.taker_fee_bps <= 10_000 {
                Ok(())
            } else {
                Err(ProgramError::InvalidInstructionData)
            }),
    {
        if !(self.base_lots_per_base_unit > 0 && self.tick_size_in_quote_lots_per_base_unit > 0) {
            return Err(ProgramError::InvalidInstructionData);
        }
        if self.taker_fee_bps > 10_000 {
            return Err(ProgramError::InvalidInstructionData);
        }
        Ok(())
    }
}

/// The orderbook's bump seed, or the first check that fails.
pub open spec fn spec_prepare_orderbook(
    program_id: Pubkey,
    admin: Pubkey,
    perp_market_key: Pubkey,
    perp_market_owner: Pubkey,
    m: PerpMarket,
    orderbook_key: Pubkey,
    orderbook_uninitialized: bool,
) -> Result<u8, ProgramError> {
    if !is_pda_of(perp_market_key@, perp_market_seeds(m.phoenix_market@), program_id) {
        Err(ProgramError::Custom(PerpRouterError::InvalidPda))
    } else if m.authority != admin {
        Err(ProgramError::Custom(PerpRouterError::InvalidAuthority))
    } else if m.orderbook_bump != 0 {
        Err(ProgramError::Custom(PerpRouterError::AlreadyInitialized))
    } else if perp_market_owner != program_id {
        Err(ProgramError::IllegalOwner)
    } else if !is_pda_of(orderbook_key@, orderbook_seeds(perp_market_key@), program_id) {
        Err(ProgramError::Custom(PerpRouterError::InvalidPda))
    } else if !orderbook_uninitialized {
        Err(ProgramError::Custom(PerpRouterError::AlreadyInitialized))
    } else {
        Ok(program_address(orderbook_seeds(perp_market_key@), program_id@)->Some_0.1)
    }
}

/// Check the market (its PDA, its authority is the caller, no orderbook
/// yet, owned by this program) and the orderbook account (its PDA, still
/// uninitialized); return the orderbook's bump seed, which the market then
/// records in `orderbook_bump`.
pub fn prepare_orderbook(
    program_id: &Pubkey,
    admin: &Pubkey,
    perp_market_key: &Pubkey,
    perp_market_owner: &Pubkey,
    m: &PerpMarket,
    orderbook_key: &Pubkey,
    orderbook_uninitialized: bool,
) -> (r: Result<u8, ProgramError>)
    ensures
        r == spec_prepare_orderbook(*program_id, *admin, *perp_market_key, *perp_market_owner, *m,
            *orderbook_key, orderbook_uninitialized),
{
    if !found_address_is(find_perp_market_address(&m.phoenix_market, program_id), perp_market_key) {
        return Err(ProgramError::Custom(PerpRouterError::InvalidPda));
    }
    if !key_eq(&m.authority, admin) {
        return Err(ProgramError::Custom(PerpRouterError::InvalidAuthority));
    }
    if m.orderbook_bump != 0 {
        return Err(ProgramError::Custom(PerpRouterError::AlreadyInitialized));
    }
    if !key_eq(perp_market_owner, program_id) {
        return Err(ProgramError::IllegalOwner);
    }
    let found = find_orderbook_address(perp_market_key, program_id);
    if !found_address_is(found, orderbook_key) {
        return Err(ProgramError::Custom(PerpRouterError::InvalidPda));
    }
    if !orderbook_uninitialized {
        return Err(ProgramError::Custom(PerpRouterError::AlreadyInitialized));
    }
    match found {
        Some((_k, b)) => Ok(b),
        None => Ok(0),
    }
}

} // verus!
