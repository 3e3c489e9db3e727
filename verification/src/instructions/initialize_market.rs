//! InitializeMarket — creates the `PerpMarket` of a Phoenix market, with
//! the protocol defaults for the envelope and the leverage cap when the
//! parameters leave them at zero.

use vstd::prelude::*;

use crate::constants::{MAX_BPS_PER_SLOT, MAX_LEVERAGE_BPS};
use crate::error::{PerpRouterError, ProgramError};
use crate::state::bytes::Pubkey;
use crate::state::perp_market::PerpMarket;
use crate::validation::loaders::{find_perp_market_address, found_address_is, is_pda_of, perp_market_seeds, program_address};

verus! {

/// Instruction parameters of InitializeMarket; zero means "use the
/// protocol default".
pub struct InitializeMarketParams {
    pub max_bps_per_slot: u32,
    pub max_leverage_bps: u32,
}

/// The accounts a market links together.
pub struct MarketLinks {
    pub phoenix_market: Pubkey,
    pub oracle: Pubkey,
    pub base_mint: Pubkey,
    pub quote_mint: Pubkey,
    pub phoenix_base_vault: Pubkey,
    pub phoenix_quote_vault: Pubkey,
}

/// `value`, or `default` when `value` is zero.
pub open spec fn or_default(value: u32, default: u32) -> u32 {
    if value == 0 { default } else { value }
}

/// The contents of a fresh market: the links, the parameters (defaulted),
/// the admin as authority, the bump; everything else zero.
pub open spec fn spec_new_market(links: MarketLinks, p: InitializeMarketParams, admin: Pubkey, bump: u8) -> PerpMarket {
    PerpMarket {
        phoenix_market: links.phoenix_market,
        oracle: links.oracle,
        base_mint: links.base_mint,
        quote_mint: links.quote_mint,
        phoenix_base_vault: links.phoenix_base_vault,
        phoenix_quote_vault: links.phoenix_quote_vault,
        last_oracle_price: 0,
        last_oracle_slot: 0,
        max_bps_per_slot: or_default(p.max_bps_per_slot, MAX_BPS_PER_SLOT),
        max_leverage_bps: or_default(p.max_leverage_bps, MAX_LEVERAGE_BPS),
        funding_index: [0u8, 0, 0, 0, 0, 0, 0, 0, 0, 0, 0, 0, 0, 0, 0, 0],
        open_interest: [0u8, 0, 0, 0, 0, 0, 0, 0, 0, 0, 0, 0, 0, 0, 0, 0],
        authority: admin,
        bump,
        orderbook_bump: 0,
        _pad: [0u8, 0, 0, 0, 0, 0],
    }
}

/// Validate the market account — the PDA of `links.phoenix_market`, still
/// uninitialized — and build its first contents.
pub fn init_perp_market(
    program_id: &Pubkey,
    admin: &Pubkey,
    perp_market_key: &Pubkey,
    links: MarketLinks,
    uninitialized: bool,
    p: &InitializeMarketParams,
) -> (r: Result<PerpMarket, ProgramError>)
    ensures
        r == (if !is_pda_of(perp_market_key@, perp_market_seeds(links.phoenix_market@), *program_id) {
            Err(ProgramError::Custom(PerpRouterError::InvalidPda))
        } else if !uninitialized {
            Err(ProgramError::Custom(PerpRouterError::AlreadyInitialized))
        } else {
            Ok(spec_new_market(links, *p, *admin,
                program_address(perp_market_seeds(links.phoenix_market@), program_id@)->Some_0.1))
        }),
{
    let found = find_perp_market_address(&links.phoenix_market, program_id);
    if !found_address_is(found, perp_market_key) {
        return Err(ProgramError::Custom(PerpRouterError::InvalidPda));
    }
    if !uninitialized {
        return Err(ProgramError::Custom(PerpRouterError::AlreadyInitialized));
    }
    let bump = match found {
        Some((_k, b)) => b,
        None => 0,
    };
    Ok(PerpMarket {
        phoenix_market: links.phoenix_market,
        oracle: links.oracle,
        base_mint: links.base_mint,
        quote_mint: links.quote_mint,
        phoenix_base_vault: links.phoenix_base_vault,
        phoenix_quote_vault: links.phoenix_quote_vault,
        last_oracle_price: 0,
        last_oracle_slot: 0,
        max_bps_per_slot: if p.max_bps_per_slot == 0 { MAX_BPS_PER_SLOT } else { p.max_bps_per_slot },
        max_leverage_bps: if p.max_leverage_bps == 0 { MAX_LEVERAGE_BPS } else { p.max_leverage_bps },
        funding_index: [0u8, 0, 0, 0, 0, 0, 0, 0, 0, 0, 0, 0, 0, 0, 0, 0],
        open_interest: [0u8, 0, 0, 0, 0, 0, 0, 0, 0, 0, 0, 0, 0, 0, 0, 0],
        authority: *admin,
        bump,
        orderbook_bump: 0,
        _pad: [0u8, 0, 0, 0, 0, 0],
    })
}

} // verus!
