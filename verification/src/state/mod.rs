//! Account state: the plain-value layout of each on-chain account the
//! router reads and writes.

pub mod bytes;
pub mod global;
pub mod trader_account;
pub mod vault;
pub mod perp_market;
pub mod receipts;
pub mod token;
