//! CrankFunding — refreshes a market's last oracle price from a
//! client-supplied mark, clamped by the envelope.

use vstd::prelude::*;

use crate::error::{PerpRouterError, ProgramError};
use crate::state::bytes::Pubkey;
use crate::validation::loaders::{check_perp_market_key, is_pda_of, perp_market_seeds};
use crate::instructions::direct_open_position::sat_sub;
use crate::risk::envelope::{safe_oracle_read, spec_safe_oracle_read};
use crate::state::perp_market::PerpMarket;

verus! {

/// Instruction parameters of CrankFunding.
pub struct CrankFundingParams {
    /// Client-supplied mark price; zero means "nothing to do".
    pub mark_price: u64,
}

/// A zero mark leaves the market unchanged; otherwise its last oracle
/// price becomes the clamped mark and its last oracle slot `current_slot`.
/// The market must sit at its PDA (`InvalidPda`). On error nothing
/// changes.
pub fn process(
    program_id: &Pubkey,
    perp_market_key: &Pubkey,
    m: &mut PerpMarket,
    p: &CrankFundingParams,
    current_slot: u64,
) -> (r: Result<(), ProgramError>)
    ensures
        p.mark_price == 0 ==> r is Ok && *final(m) == *old(m),
        p.mark_price != 0 && !is_pda_of(perp_market_key@, perp_market_seeds(old(m).phoenix_market@), *program_id)
            ==> r == Err::<(), ProgramError>(ProgramError::Custom(PerpRouterError::InvalidPda)) && *final(m) == *old(m),
        p.mark_price != 0 && is_pda_of(perp_market_key@, perp_market_seeds(old(m).phoenix_market@), *program_id)
            ==> match spec_safe_oracle_read(p.mark_price, old(m).last_oracle_price,
            sat_sub(current_slot as int, old(m).last_oracle_slot as int) as u64, old(m).max_bps_per_slot) {
            Ok(price) => r is Ok && *final(m) == (PerpMarket {
                last_oracle_price: price,
                last_oracle_slot: current_slot,
                ..*old(m)
            }),
            Err(e) => r == Err::<(), ProgramError>(ProgramError::Custom(e)) && *final(m) == *old(m),
        },
{
    if p.mark_price == 0 {
        return Ok(());
    }
    match check_perp_market_key(program_id, &m.phoenix_market, perp_market_key) {
        Ok(()) => {},
        Err(e) => { return Err(e); },
    }
    let dt = current_slot.saturating_sub(m.last_oracle_slot);
    let clamped = match safe_oracle_read(p.mark_price, m.last_oracle_price, dt, m.max_bps_per_slot) {
        Ok(c) => c,
        Err(e) => { return Err(ProgramError::Custom(e)); },
    };
    m.last_oracle_price = clamped;
    m.last_oracle_slot = current_slot;
    Ok(())
}

} // verus!
