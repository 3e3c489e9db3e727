//! Perpetual-futures router logic: the Percolator risk engine (haircut,
//! lazy side indices, oracle envelope, PnL warmup, recovery), the account
//! state it reads and writes, and the per-instruction state transitions.

pub mod constants;
pub mod error;
pub mod risk;
pub mod state;
pub mod validation;
pub mod instructions;
pub mod cpi;
pub mod instruction;
pub mod phoenix;

pub use instruction::PerpRouterInstruction;
