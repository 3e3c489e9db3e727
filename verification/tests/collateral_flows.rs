use perp_router::error::{PerpRouterError, ProgramError};
use perp_router::instructions::close_collateral_deposit_receipt::{self, close_into};
use perp_router::instructions::direct_deposit::{self, DirectDepositParams};
use perp_router::instructions::direct_withdraw::{self, DirectWithdrawParams, WithdrawKeys};
use perp_router::instructions::execute_collateral_withdrawal_base_chain::payout_plan;
use perp_router::instructions::initialize_global_state::init_global_state;
use perp_router::instructions::initialize_market::{init_perp_market, InitializeMarketParams, MarketLinks};
use perp_router::instructions::initialize_trader::init_trader_account;
use perp_router::instructions::process_collateral_deposit_er;
use perp_router::instructions::process_collateral_withdrawal_er;
use perp_router::instructions::request_collateral_deposit::{open_deposit_receipt, RequestCollateralDepositParams};
use perp_router::instructions::request_collateral_withdrawal::{open_withdrawal_receipt, RequestCollateralWithdrawalParams};
use perp_router::state::global::GlobalState;
use perp_router::state::perp_market::PerpMarket;
use perp_router::state::trader_account::TraderAccount;
use perp_router::state::vault::find_collateral_vault_address;
use perp_router::validation::loaders::{
    find_deposit_receipt_address, find_global_state_address, find_perp_authority_address, find_perp_market_address,
    find_trader_account_address, find_withdrawal_receipt_address,
};

const PID: [u8; 32] = [9u8; 32];
const OWNER: [u8; 32] = [1u8; 32];
const ADMIN: [u8; 32] = [2u8; 32];
const MINT: [u8; 32] = [3u8; 32];
const PHOENIX_MARKET: [u8; 32] = [4u8; 32];

struct World {
    trader_account_key: [u8; 32],
    global_state_key: [u8; 32],
    perp_market_key: [u8; 32],
    vault: [u8; 32],
    authority: [u8; 32],
    t: TraderAccount,
    g: GlobalState,
    m: PerpMarket,
}

fn world() -> World {
    let trader_account_key = find_trader_account_address(&OWNER, &PID).unwrap().0;
    let global_state_key = find_global_state_address(&PID).unwrap().0;
    let perp_market_key = find_perp_market_address(&PHOENIX_MARKET, &PID).unwrap().0;
    let t = init_trader_account(&PID, &OWNER, &trader_account_key, true).unwrap();
    let g = init_global_state(&PID, &ADMIN, &global_state_key, true).unwrap();
    let links = MarketLinks {
        phoenix_market: PHOENIX_MARKET,
        oracle: [5u8; 32],
        base_mint: [6u8; 32],
        quote_mint: MINT,
        phoenix_base_vault: [7u8; 32],
        phoenix_quote_vault: [8u8; 32],
    };
    let params = InitializeMarketParams { max_bps_per_slot: 0, max_leverage_bps: 0 };
    let m = init_perp_market(&PID, &ADMIN, &perp_market_key, links, true, &params).unwrap();
    World {
        trader_account_key,
        global_state_key,
        perp_market_key,
        vault: find_collateral_vault_address(&MINT, &PID).unwrap(),
        authority: find_perp_authority_address(&PID).unwrap().0,
        t,
        g,
        m,
    }
}

fn withdraw_keys(w: &World) -> WithdrawKeys {
    WithdrawKeys {
        program_id: PID,
        quote_mint: MINT,
        collateral_vault: w.vault,
        perp_authority: w.authority,
        global_state: w.global_state_key,
        trader_account: w.trader_account_key,
    }
}

#[test]
fn direct_deposit_then_withdraw_restores_state() {
    let mut w = world();
    let before_t = w.t;
    let before_g = w.g;
    direct_deposit::process(&PID, &w.trader_account_key, &w.global_state_key, &mut w.t, &mut w.g, &OWNER,
        &DirectDepositParams { amount: 1_000 }).unwrap();
    assert_eq!(w.t.collateral, 1_000);
    assert_eq!(w.g.v_total_pool_value, 1_000);
    assert_eq!(w.g.c_total_collateral, 1_000);
    let keys = withdraw_keys(&w);
    let net = direct_withdraw::process(&keys, &mut w.t, &mut w.g, &OWNER, &DirectWithdrawParams { amount: 1_000 });
    assert_eq!(net, Ok(1_000));
    assert_eq!(w.t.collateral, before_t.collateral);
    assert_eq!(w.g.v_total_pool_value, before_g.v_total_pool_value);
    assert_eq!(w.g.c_total_collateral, before_g.c_total_collateral);
}

#[test]
fn direct_deposit_errors() {
    let mut w = world();
    let zero = DirectDepositParams { amount: 0 };
    assert_eq!(
        direct_deposit::process(&PID, &w.trader_account_key, &w.global_state_key, &mut w.t, &mut w.g, &OWNER, &zero),
        Err(ProgramError::InvalidInstructionData)
    );
    let p = DirectDepositParams { amount: 5 };
    assert_eq!(
        direct_deposit::process(&PID, &w.global_state_key, &w.global_state_key, &mut w.t, &mut w.g, &OWNER, &p),
        Err(ProgramError::Custom(PerpRouterError::InvalidPda))
    );
    assert_eq!(
        direct_deposit::process(&PID, &w.trader_account_key, &w.global_state_key, &mut w.t, &mut w.g, &ADMIN, &p),
        Err(ProgramError::Custom(PerpRouterError::InvalidAuthority))
    );
    w.t.collateral = u64::MAX;
    assert_eq!(
        direct_deposit::process(&PID, &w.trader_account_key, &w.global_state_key, &mut w.t, &mut w.g, &OWNER, &p),
        Err(ProgramError::Custom(PerpRouterError::MathOverflow))
    );
    assert_eq!(w.t.collateral, u64::MAX);
    assert_eq!(direct_deposit::check_vault(&PID, &MINT, &[0u8; 32]), Err(ProgramError::Custom(PerpRouterError::InvalidPda)));
    assert_eq!(direct_deposit::check_vault(&PID, &MINT, &w.vault), Ok(()));
}

#[test]
fn direct_withdraw_haircuts_pnl_only() {
    let mut w = world();
    // V=10M, C=2M, I=200k, matured PnL=8M → h = 7.8M / 8M.
    w.g.v_total_pool_value = 10_000_000;
    w.g.c_total_collateral = 2_000_000;
    w.g.i_insurance_reserve = 200_000;
    w.g.total_matured_pnl = 8_000_000;
    w.t.collateral = 2_000_000;
    w.t.pnl_matured = 100_000;
    let keys = withdraw_keys(&w);
    let net = direct_withdraw::process(&keys, &mut w.t, &mut w.g, &OWNER, &DirectWithdrawParams { amount: 2_100_000 });
    assert_eq!(net, Ok(2_097_500));
    assert_eq!(w.t.collateral, 0);
    assert_eq!(w.t.pnl_matured, 0);
    assert_eq!(w.g.v_total_pool_value, 10_000_000 - 2_097_500);
    assert_eq!(w.g.c_total_collateral, 0);
    assert_eq!(w.g.total_matured_pnl, 7_900_000);
}

#[test]
fn direct_withdraw_checks_accounts() {
    let mut w = world();
    let mut keys = withdraw_keys(&w);
    keys.collateral_vault = [0u8; 32];
    assert_eq!(
        direct_withdraw::process(&keys, &mut w.t, &mut w.g, &OWNER, &DirectWithdrawParams { amount: 1 }),
        Err(ProgramError::Custom(PerpRouterError::InvalidPda))
    );
    let keys = withdraw_keys(&w);
    assert_eq!(
        direct_withdraw::process(&keys, &mut w.t, &mut w.g, &OWNER, &DirectWithdrawParams { amount: 0 }),
        Err(ProgramError::InvalidInstructionData)
    );
    assert_eq!(
        direct_withdraw::process(&keys, &mut w.t, &mut w.g, &ADMIN, &DirectWithdrawParams { amount: 1 }),
        Err(ProgramError::Custom(PerpRouterError::InvalidAuthority))
    );
}

#[test]
fn er_deposit_flow_credits_once() {
    let mut w = world();
    assert_eq!(RequestCollateralDepositParams { amount: 0 }.validate(), Err(ProgramError::InvalidInstructionData));
    let receipt_key = find_deposit_receipt_address(&OWNER, &PID).unwrap().0;
    let mut receipt = open_deposit_receipt(&PID, &OWNER, &w.perp_market_key, &w.m, &MINT, &w.vault, &receipt_key, true, 500).unwrap();
    assert_eq!(receipt.amount, 500);
    assert_eq!(receipt.processed, 0);
    assert_eq!(
        open_deposit_receipt(&PID, &OWNER, &w.perp_market_key, &w.m, &MINT, &w.vault, &receipt_key, false, 500).err(),
        Some(ProgramError::Custom(PerpRouterError::AlreadyInitialized))
    );
    // Stage 3 refuses a receipt that stage 2 has not processed.
    assert_eq!(
        close_collateral_deposit_receipt::process(&PID, &OWNER, &receipt_key, &receipt, 10, 5),
        Err(ProgramError::Custom(PerpRouterError::ReceiptNotProcessed))
    );
    process_collateral_deposit_er::process(&PID, &OWNER, &receipt_key, &w.trader_account_key, &w.global_state_key,
        &mut receipt, &mut w.t, &mut w.g).unwrap();
    assert_eq!(w.t.collateral, 500);
    assert_eq!(w.g.v_total_pool_value, 500);
    assert_eq!(w.g.c_total_collateral, 500);
    assert_eq!(receipt.processed, 1);
    assert_eq!(
        process_collateral_deposit_er::process(&PID, &OWNER, &receipt_key, &w.trader_account_key, &w.global_state_key,
            &mut receipt, &mut w.t, &mut w.g),
        Err(ProgramError::Custom(PerpRouterError::ReceiptAlreadyProcessed))
    );
    assert_eq!(w.t.collateral, 500);
    assert_eq!(close_collateral_deposit_receipt::process(&PID, &OWNER, &receipt_key, &receipt, 10, 5), Ok(15));
    assert_eq!(
        close_collateral_deposit_receipt::process(&PID, &ADMIN, &receipt_key, &receipt, 10, 5),
        Err(ProgramError::InvalidArgument)
    );
    assert_eq!(close_into(u64::MAX, 1), Err(ProgramError::InvalidAccountData));
}

#[test]
fn er_withdrawal_flow_applies_haircut() {
    let mut w = world();
    assert_eq!(RequestCollateralWithdrawalParams { amount: 0 }.validate(), Err(ProgramError::InvalidInstructionData));
    w.g.v_total_pool_value = 10_000_000;
    w.g.c_total_collateral = 2_000_000;
    w.g.i_insurance_reserve = 200_000;
    w.g.total_matured_pnl = 8_000_000;
    w.t.pnl_matured = 100_000;
    let receipt_key = find_withdrawal_receipt_address(&OWNER, &PID).unwrap().0;
    let mut receipt = open_withdrawal_receipt(&PID, &OWNER, &w.perp_market_key, &MINT, &w.vault, &receipt_key, true, 100_000).unwrap();
    assert_eq!(receipt.gross_amount, 100_000);
    assert_eq!(
        payout_plan(&PID, &OWNER, &receipt_key, &receipt, &MINT, &w.vault, &w.authority),
        Err(ProgramError::Custom(PerpRouterError::ReceiptNotProcessed))
    );
    process_collateral_withdrawal_er::process(&PID, &OWNER, &receipt_key, &w.trader_account_key, &w.global_state_key,
        &mut receipt, &mut w.t, &mut w.g).unwrap();
    assert_eq!(receipt.net_amount, 97_500);
    assert_eq!((receipt.h_numerator, receipt.h_denominator), (7_800_000, 8_000_000));
    assert_eq!(w.t.pnl_matured, 0);
    assert_eq!(w.g.v_total_pool_value, 10_000_000 - 97_500);
    assert_eq!(w.g.total_matured_pnl, 7_900_000);
    assert_eq!(
        process_collateral_withdrawal_er::process(&PID, &OWNER, &receipt_key, &w.trader_account_key, &w.global_state_key,
            &mut receipt, &mut w.t, &mut w.g),
        Err(ProgramError::Custom(PerpRouterError::ReceiptAlreadyProcessed))
    );
    let bump = find_perp_authority_address(&PID).unwrap().1;
    assert_eq!(payout_plan(&PID, &OWNER, &receipt_key, &receipt, &MINT, &w.vault, &w.authority), Ok((97_500, bump)));
    assert_eq!(
        payout_plan(&PID, &OWNER, &receipt_key, &receipt, &MINT, &w.vault, &[0u8; 32]),
        Err(ProgramError::Custom(PerpRouterError::InvalidPda))
    );
}

#[test]
fn er_withdrawal_refuses_pool_underflow() {
    let mut w = world();
    w.t.collateral = 50;
    let receipt_key = find_withdrawal_receipt_address(&OWNER, &PID).unwrap().0;
    let mut receipt = open_withdrawal_receipt(&PID, &OWNER, &w.perp_market_key, &MINT, &w.vault, &receipt_key, true, 50).unwrap();
    // The pool's books hold no collateral: debiting it underflows.
    assert_eq!(
        process_collateral_withdrawal_er::process(&PID, &OWNER, &receipt_key, &w.trader_account_key, &w.global_state_key,
            &mut receipt, &mut w.t, &mut w.g),
        Err(ProgramError::Custom(PerpRouterError::MathOverflow))
    );
    assert_eq!(w.t.collateral, 50);
    assert_eq!(receipt.processed, 0);
}

#[test]
fn init_refuses_wrong_or_used_accounts() {
    let w = world();
    assert_eq!(init_trader_account(&PID, &OWNER, &w.global_state_key, true).err(), Some(ProgramError::Custom(PerpRouterError::InvalidPda)));
    assert_eq!(init_trader_account(&PID, &OWNER, &w.trader_account_key, false).err(), Some(ProgramError::Custom(PerpRouterError::AlreadyInitialized)));
    assert_eq!(init_global_state(&PID, &ADMIN, &w.trader_account_key, true).err(), Some(ProgramError::Custom(PerpRouterError::InvalidPda)));
    assert_eq!(w.g.get_a(), perp_router::constants::FIXED_POINT_ONE);
    assert_eq!(w.g.admin, ADMIN);
    assert_eq!(w.m.max_bps_per_slot, perp_router::constants::MAX_BPS_PER_SLOT);
    assert_eq!(w.m.max_leverage_bps, perp_router::constants::MAX_LEVERAGE_BPS);
    assert_eq!(w.m.authority, ADMIN);
    assert_eq!(w.t.owner, OWNER);
}
