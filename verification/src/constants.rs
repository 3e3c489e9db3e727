//! Risk parameters and fixed-point scale used across the router.

use vstd::prelude::*;

verus! {

/// Fixed-point scale for index math: `1.0 == FIXED_POINT_ONE`.
pub const FIXED_POINT_ONE: i128 = 1_000_000_000_000_000_000;

/// Oracle envelope: maximum price move per slot, in basis points.
pub const MAX_BPS_PER_SLOT: u32 = 50;

/// Number of slots fresh PnL ages before it becomes withdrawable.
pub const WARMUP_SLOTS: u64 = 150;

/// Below this |A| the system drains (0.95 in fixed point).
pub const A_PRECISION_FLOOR: i128 = 950_000_000_000_000_000;

/// Maximum leverage in basis points (10x).
pub const MAX_LEVERAGE_BPS: u32 = 100_000;

/// Maximum open positions per trader.
pub const MAX_POSITIONS: usize = 8;


// PDA seed prefixes, as the ASCII bytes of the names shown.

/// Seed prefix of the singleton `GlobalState`: the bytes of `global_state`.
pub const GLOBAL_STATE_SEED: [u8; 12] = [103, 108, 111, 98, 97, 108, 95, 115, 116, 97, 116, 101];

/// Seed prefix of a `PerpMarket`: the bytes of `perp_market`.
pub const PERP_MARKET_SEED: [u8; 11] = [112, 101, 114, 112, 95, 109, 97, 114, 107, 101, 116];

/// Seed prefix of a `TraderAccount`: the bytes of `trader_account`.
pub const TRADER_ACCOUNT_SEED: [u8; 14] = [116, 114, 97, 100, 101, 114, 95, 97, 99, 99, 111, 117, 110, 116];

/// Seed prefix of a deposit receipt: the bytes of `perp_deposit_receipt`.
pub const DEPOSIT_RECEIPT_SEED: [u8; 20] = [112, 101, 114, 112, 95, 100, 101, 112, 111, 115, 105, 116, 95, 114, 101, 99, 101, 105, 112, 116];

/// Seed prefix of a withdrawal receipt: the bytes of `perp_withdrawal_receipt`.
pub const WITHDRAWAL_RECEIPT_SEED: [u8; 23] = [112, 101, 114, 112, 95, 119, 105, 116, 104, 100, 114, 97, 119, 97, 108, 95, 114, 101, 99, 101, 105, 112, 116];

/// Seed prefix of a per-market orderbook: the bytes of `orderbook`.
pub const ORDERBOOK_SEED: [u8; 9] = [111, 114, 100, 101, 114, 98, 111, 111, 107];

/// Seed prefix of the router's singleton SPL/CPI authority: the bytes of `perp_authority`.
pub const PERP_AUTHORITY_SEED: [u8; 14] = [112, 101, 114, 112, 95, 97, 117, 116, 104, 111, 114, 105, 116, 121];

/// The SPL Token program (`TokenkegQfeZyiNwAJbNbGKPFXCWuBvf9Ss623VQ5DA`).
pub const TOKEN_PROGRAM_ID: [u8; 32] = [
    6, 221, 246, 225, 215, 101, 161, 147, 217, 203, 225, 70, 206, 235, 121, 172,
    28, 180, 133, 237, 95, 91, 55, 145, 58, 140, 245, 133, 126, 255, 0, 169,
];

/// The associated token account program (`ATokenGPvbdGVxr1b2hvZbsiqW5xWH25efTNsLJA8knL`).
pub const ASSOCIATED_TOKEN_PROGRAM_ID: [u8; 32] = [
    140, 151, 37, 143, 78, 36, 137, 241, 187, 61, 16, 41, 20, 142, 13, 131,
    11, 90, 19, 153, 218, 255, 16, 132, 4, 142, 123, 216, 219, 233, 248, 89,
];

} // verus!
