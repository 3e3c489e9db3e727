use perp_router::constants::{A_PRECISION_FLOOR, FIXED_POINT_ONE, WARMUP_SLOTS};
use perp_router::error::{PerpRouterError, ProgramError};
use perp_router::instructions::crank_funding::{self, CrankFundingParams};
use perp_router::instructions::initialize_global_state::init_global_state;
use perp_router::instructions::initialize_market::{init_perp_market, InitializeMarketParams, MarketLinks};
use perp_router::instructions::initialize_trader::init_trader_account;
use perp_router::instructions::liquidate::{self, LiquidateParams};
use perp_router::instructions::mature_pnl;
use perp_router::instructions::recovery_check;
use perp_router::risk::warmup::push_reserve;
use perp_router::state::global::{GlobalState, RECOVERY_DRAIN_ONLY, RECOVERY_NORMAL, RECOVERY_RESET_PENDING};
use perp_router::state::perp_market::PerpMarket;
use perp_router::validation::loaders::{find_global_state_address, find_perp_market_address, find_trader_account_address};

const PID: [u8; 32] = [9u8; 32];
const ADMIN: [u8; 32] = [2u8; 32];
const OWNER: [u8; 32] = [1u8; 32];

fn global() -> ([u8; 32], GlobalState) {
    let key = find_global_state_address(&PID).unwrap().0;
    (key, init_global_state(&PID, &ADMIN, &key, true).unwrap())
}

fn market() -> ([u8; 32], PerpMarket) {
    let phoenix_market = [4u8; 32];
    let key = find_perp_market_address(&phoenix_market, &PID).unwrap().0;
    let links = MarketLinks {
        phoenix_market,
        oracle: [5u8; 32],
        base_mint: [6u8; 32],
        quote_mint: [3u8; 32],
        phoenix_base_vault: [7u8; 32],
        phoenix_quote_vault: [8u8; 32],
    };
    let p = InitializeMarketParams { max_bps_per_slot: 50, max_leverage_bps: 100_000 };
    (key, init_perp_market(&PID, &ADMIN, &key, links, true, &p).unwrap())
}

#[test]
fn liquidation_shrinks_a_and_books_the_loss() {
    let (gs_key, mut g) = global();
    let (m_key, mut m) = market();
    m.set_open_interest(-1_000);
    g.v_total_pool_value = 500;
    assert_eq!(liquidate::process(&PID, &gs_key, &m_key, &mut g, &m, &LiquidateParams { shortfall: 0 }), Ok(()));
    assert_eq!(g.get_a(), FIXED_POINT_ONE);
    liquidate::process(&PID, &gs_key, &m_key, &mut g, &m, &LiquidateParams { shortfall: 20 }).unwrap();
    assert_eq!(g.get_a(), FIXED_POINT_ONE * 980 / 1000);
    assert_eq!(g.get_b(), 20);
    assert_eq!(g.v_total_pool_value, 480);
    assert_eq!(
        liquidate::process(&PID, &m_key, &m_key, &mut g, &m, &LiquidateParams { shortfall: 1 }),
        Err(ProgramError::Custom(PerpRouterError::InvalidPda))
    );
    assert_eq!(
        liquidate::process(&PID, &gs_key, &gs_key, &mut g, &m, &LiquidateParams { shortfall: 0 }),
        Err(ProgramError::Custom(PerpRouterError::InvalidPda))
    );
}

#[test]
fn matured_pnl_moves_to_the_withdrawable_balance() {
    let (gs_key, mut g) = global();
    let ta_key = find_trader_account_address(&OWNER, &PID).unwrap().0;
    let mut t = init_trader_account(&PID, &OWNER, &ta_key, true).unwrap();
    push_reserve(&mut t.pnl_reserve, &mut t.pnl_reserve_len, 100, 10 + WARMUP_SLOTS).unwrap();
    push_reserve(&mut t.pnl_reserve, &mut t.pnl_reserve_len, 50, 400).unwrap();
    mature_pnl::process(&PID, &ta_key, &gs_key, &mut t, &mut g, 100).unwrap();
    assert_eq!(t.pnl_matured, 0);
    mature_pnl::process(&PID, &ta_key, &gs_key, &mut t, &mut g, 10 + WARMUP_SLOTS).unwrap();
    assert_eq!(t.pnl_matured, 100);
    assert_eq!(t.pnl_reserve_len, 1);
    assert_eq!(g.total_matured_pnl, 100);
    assert_eq!(
        mature_pnl::process(&PID, &gs_key, &gs_key, &mut t, &mut g, 500),
        Err(ProgramError::Custom(PerpRouterError::InvalidPda))
    );
    assert_eq!(t.pnl_reserve_len, 1);
}

#[test]
fn funding_crank_clamps_the_mark() {
    let (m_key, mut m) = market();
    assert_eq!(crank_funding::process(&PID, &m_key, &mut m, &CrankFundingParams { mark_price: 0 }, 1), Ok(()));
    assert_eq!(m.last_oracle_price, 0);
    crank_funding::process(&PID, &m_key, &mut m, &CrankFundingParams { mark_price: 100_000 }, 1).unwrap();
    assert_eq!((m.last_oracle_price, m.last_oracle_slot), (100_000, 1));
    crank_funding::process(&PID, &m_key, &mut m, &CrankFundingParams { mark_price: 200_000 }, 2).unwrap();
    assert_eq!((m.last_oracle_price, m.last_oracle_slot), (100_500, 2));
    assert_eq!(
        crank_funding::process(&PID, &[0u8; 32], &mut m, &CrankFundingParams { mark_price: 1 }, 3),
        Err(ProgramError::Custom(PerpRouterError::InvalidPda))
    );
}

#[test]
fn recovery_check_walks_the_cycle() {
    let (gs_key, mut g) = global();
    recovery_check::process(&PID, &gs_key, &mut g, &vec![]).unwrap();
    assert_eq!(g.recovery_state, RECOVERY_NORMAL);
    g.set_a(A_PRECISION_FLOOR - 1);
    recovery_check::process(&PID, &gs_key, &mut g, &vec![]).unwrap();
    assert_eq!(g.recovery_state, RECOVERY_DRAIN_ONLY);
    recovery_check::process(&PID, &gs_key, &mut g, &vec![]).unwrap();
    assert_eq!(g.recovery_state, RECOVERY_RESET_PENDING);
    let epoch = g.epoch;
    recovery_check::process(&PID, &gs_key, &mut g, &vec![]).unwrap();
    assert_eq!(g.recovery_state, RECOVERY_NORMAL);
    assert_eq!(g.get_a(), FIXED_POINT_ONE);
    assert_eq!(g.epoch, epoch + 1);
    assert_eq!(recovery_check::process(&PID, &[0u8; 32], &mut g, &vec![]), Err(ProgramError::Custom(PerpRouterError::InvalidPda)));
}

#[test]
fn recovery_check_waits_for_open_interest_to_close() {
    let (gs_key, mut g) = global();
    g.set_a(A_PRECISION_FLOOR - 1);
    let (_, flat) = market();
    let (_, mut open) = market();
    open.set_open_interest(-5);
    recovery_check::process(&PID, &gs_key, &mut g, &vec![flat, open]).unwrap();
    assert_eq!(g.recovery_state, RECOVERY_DRAIN_ONLY);
    recovery_check::process(&PID, &gs_key, &mut g, &vec![flat, open]).unwrap();
    assert_eq!(g.recovery_state, RECOVERY_DRAIN_ONLY);
    assert_eq!(g.get_a(), A_PRECISION_FLOOR - 1);
    open.set_open_interest(0);
    recovery_check::process(&PID, &gs_key, &mut g, &vec![flat, open]).unwrap();
    assert_eq!(g.recovery_state, RECOVERY_RESET_PENDING);
}

#[test]
fn total_open_interest_sums_magnitudes() {
    let (_, mut a) = market();
    let (_, mut b) = market();
    a.set_open_interest(-7);
    b.set_open_interest(3);
    assert_eq!(recovery_check::total_open_interest(&vec![a, b]), 10);
    assert_eq!(recovery_check::total_open_interest(&vec![]), 0);
    a.set_open_interest(i128::MIN);
    assert_eq!(recovery_check::total_open_interest(&vec![a, b]), u64::MAX);
}
