//! InitializeTrader — creates the signer's `TraderAccount` at its PDA.

use vstd::prelude::*;

use crate::error::{PerpRouterError, ProgramError};
use crate::state::bytes::Pubkey;
use crate::state::trader_account::{empty_entry, is_empty_position, trader_wf, TraderAccount};
use crate::constants::MAX_POSITIONS;
use crate::state::trader_account::MAX_RESERVE_ENTRIES;
use crate::validation::loaders::{find_trader_account_address, found_address_is, is_pda_of, program_address, trader_account_seeds};

verus! {

/// A fresh account of `owner`: nothing deposited, no PnL, no positions.
pub open spec fn is_fresh_trader_account(t: TraderAccount, owner: Pubkey, bump: u8) -> bool {
    &&& t.owner == owner
    &&& t.bump == bump
    &&& t.collateral == 0
    &&& t.locked_margin == 0
    &&& t.pnl_matured == 0
    &&& t.pnl_reserve_len == 0
    &&& t.positions_len == 0
    &&& t.last_index_epoch == 0
    &&& forall|i: int| 0 <= i < MAX_RESERVE_ENTRIES ==> #[trigger] t.pnl_reserve@[i] == empty_entry()
    &&& forall|i: int| 0 <= i < MAX_POSITIONS ==> is_empty_position(#[trigger] t.positions@[i])
    &&& trader_wf(t)
}

/// Validate the trader-account key — `owner`'s PDA, still uninitialized —
/// and build the account's first contents.
pub fn init_trader_account(
    program_id: &Pubkey,
    owner: &Pubkey,
    trader_account_key: &Pubkey,
    uninitialized: bool,
) -> (r: Result<TraderAccount, ProgramError>)
    ensures
        !is_pda_of(trader_account_key@, trader_account_seeds(owner@), *program_id)
            ==> r == Err::<TraderAccount, ProgramError>(ProgramError::Custom(PerpRouterError::InvalidPda)),
        is_pda_of(trader_account_key@, trader_account_seeds(owner@), *program_id) && !uninitialized
            ==> r == Err::<TraderAccount, ProgramError>(ProgramError::Custom(PerpRouterError::AlreadyInitialized)),
        is_pda_of(trader_account_key@, trader_account_seeds(owner@), *program_id) && uninitialized
            ==> r is Ok && is_fresh_trader_account(
                r->Ok_0, *owner, program_address(trader_account_seeds(owner@), program_id@)->Some_0.1),
{
    let found = find_trader_account_address(owner, program_id);
    if !found_address_is(found, trader_account_key) {
        return Err(ProgramError::Custom(PerpRouterError::InvalidPda));
    }
    if !uninitialized {
        return Err(ProgramError::Custom(PerpRouterError::AlreadyInitialized));
    }
    let bump = match found {
        Some((_k, b)) => b,
        None => 0,
    };
    Ok(TraderAccount::new(*owner, bump))
}

} // verus!
