//! InitializeGlobalState — creates the singleton `GlobalState` with the A
//! index at 1.0 and the recovery machine in Normal.

use vstd::prelude::*;

use crate::constants::FIXED_POINT_ONE;
use crate::error::{PerpRouterError, ProgramError};
use crate::state::bytes::Pubkey;
use crate::state::global::{GlobalState, RECOVERY_NORMAL};
use crate::validation::loaders::{find_global_state_address, found_address_is, global_state_seeds, is_pda_of, program_address};

verus! {

/// The state a fresh global account starts in: A = 1.0, K = F = B = 0,
/// recovery Normal, empty balance sheet, the given admin and bump.
pub open spec fn is_fresh_global_state(g: GlobalState, admin: Pubkey, bump: u8) -> bool {
    &&& g.spec_a() == FIXED_POINT_ONE
    &&& g.k@ == Seq::new(16, |_i: int| 0u8)
    &&& g.f@ == Seq::new(16, |_i: int| 0u8)
    &&& g.b@ == Seq::new(16, |_i: int| 0u8)
    &&& g.epoch == 0
    &&& g.recovery_state == RECOVERY_NORMAL
    &&& g._pad0@ == Seq::new(7, |_i: int| 0u8)
    &&& g.v_total_pool_value == 0
    &&& g.c_total_collateral == 0
    &&& g.i_insurance_reserve == 0
    &&& g.total_matured_pnl == 0
    &&& g.admin == admin
    &&& g.bump == bump
    &&& g._pad1@ == Seq::new(7, |_i: int| 0u8)
}

/// Validate the global-state account — the program's global-state PDA,
/// still uninitialized — and build its first contents.
pub fn init_global_state(
    program_id: &Pubkey,
    admin: &Pubkey,
    global_state_key: &Pubkey,
    uninitialized: bool,
) -> (r: Result<GlobalState, ProgramError>)
    ensures
        !is_pda_of(global_state_key@, global_state_seeds(), *program_id)
            ==> r == Err::<GlobalState, ProgramError>(ProgramError::Custom(PerpRouterError::InvalidPda)),
        is_pda_of(global_state_key@, global_state_seeds(), *program_id) && !uninitialized
            ==> r == Err::<GlobalState, ProgramError>(ProgramError::Custom(PerpRouterError::AlreadyInitialized)),
        is_pda_of(global_state_key@, global_state_seeds(), *program_id) && uninitialized
            ==> r is Ok && is_fresh_global_state(
                r->Ok_0, *admin, program_address(global_state_seeds(), program_id@)->Some_0.1),
{
    let found = find_global_state_address(program_id);
    if !found_address_is(found, global_state_key) {
        return Err(ProgramError::Custom(PerpRouterError::InvalidPda));
    }
    if !uninitialized {
        return Err(ProgramError::Custom(PerpRouterError::AlreadyInitialized));
    }
    let bump = match found {
        Some((_k, b)) => b,
        None => 0,
    };
    let mut g = GlobalState::zeroed();
    g.set_a(FIXED_POINT_ONE);
    g.recovery_state = RECOVERY_NORMAL;
    g.admin = *admin;
    g.bump = bump;
    Ok(g)
}

} // verus!
