//! Instruction logic: for each instruction, the state transition it makes
//! on the router's accounts once they are loaded and validated.

pub mod close_position;
pub mod direct_close_position;
pub mod direct_open_position;
pub mod open_position;
pub mod place_order_perp;
pub mod crank_funding;
pub mod liquidate;
pub mod mature_pnl;
pub mod recovery_check;
pub mod direct_deposit;
pub mod direct_withdraw;
pub mod request_collateral_deposit;
pub mod request_collateral_withdrawal;
pub mod close_collateral_deposit_receipt;
pub mod process_collateral_deposit_er;
pub mod process_collateral_withdrawal_er;
pub mod execute_collateral_withdrawal_base_chain;
pub mod initialize_global_state;
pub mod initialize_market;
pub mod initialize_orderbook;
pub mod initialize_trader;
pub mod claim_seat;
pub mod delegate_global_state;
pub mod delegate_perp_market;
pub mod delegate_orderbook;
pub mod delegate_trader_account;
pub mod schedule_cranks;
pub mod cancel_order_perp;
