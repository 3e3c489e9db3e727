//! PerpMarket — per-market state: links a Phoenix market to an oracle and
//! accrues funding.

use vstd::prelude::*;

use crate::state::bytes::{i128_from_le_bytes, i128_to_le_bytes, le_i128, Pubkey};

verus! {

#[derive(Copy, Clone, Debug)]
pub struct PerpMarket {
    /// Sibling Phoenix market used for matching.
    pub phoenix_market: Pubkey,
    /// Oracle feed.
    pub oracle: Pubkey,
    /// Base mint (the traded asset).
    pub base_mint: Pubkey,
    /// Quote mint (the collateral asset).
    pub quote_mint: Pubkey,
    /// Phoenix's base and quote vaults for this market.
    pub phoenix_base_vault: Pubkey,
    pub phoenix_quote_vault: Pubkey,
    /// Last envelope-clamped oracle price, and the slot it was seen at.
    pub last_oracle_price: u64,
    pub last_oracle_slot: u64,
    /// Max basis-point move per slot.
    pub max_bps_per_slot: u32,
    /// Max leverage in basis points.
    pub max_leverage_bps: u32,
    /// Funding index (`i128`, little-endian).
    pub funding_index: [u8; 16],
    /// Net open interest in base lots (`i128`, little-endian, signed).
    pub open_interest: [u8; 16],
    pub authority: Pubkey,
    pub bump: u8,
    /// Bump of this market's orderbook PDA; zero until the orderbook exists.
    pub orderbook_bump: u8,
    pub _pad: [u8; 6],
}

impl PerpMarket {
    /// Value of the funding index.
    pub open spec fn spec_funding_index(&self) -> int { le_i128(self.funding_index@) }
    /// Value of the open interest.
    pub open spec fn spec_open_interest(&self) -> int { le_i128(self.open_interest@) }

    pub fn get_funding_index(&self) -> (v: i128)
        ensures
            v == self.spec_funding_index(),
    {
        i128_from_le_bytes(self.funding_index)
    }

    /// Stores `v` as the funding index; `get_funding_index` reads back `v`.
    pub fn set_funding_index(&mut self, v: i128)
        ensures
            final(self).spec_funding_index() == v,
            *final(self) == (PerpMarket { funding_index: final(self).funding_index, ..*old(self) }),
    {
        self.funding_index = i128_to_le_bytes(v);
    }

    pub fn get_open_interest(&self) -> (v: i128)
        ensures
            v == self.spec_open_interest(),
    {
        i128_from_le_bytes(self.open_interest)
    }

    /// Stores `v` as the open interest; `get_open_interest` reads back `v`.
    pub fn set_open_interest(&mut self, v: i128)
        ensures
            final(self).spec_open_interest() == v,
            *final(self) == (PerpMarket { open_interest: final(self).open_interest, ..*old(self) }),
    {
        self.open_interest = i128_to_le_bytes(v);
    }
}

} // verus!
