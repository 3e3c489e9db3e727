use perp_router::constants::{FIXED_POINT_ONE, MAX_POSITIONS, WARMUP_SLOTS};
use perp_router::cpi::phoenix::{swap_instruction_data, Side};
use perp_router::error::{PerpRouterError, ProgramError};
use perp_router::instructions::cancel_order_perp::{check_trading_accounts, release_cancelled_margin};
use perp_router::instructions::direct_close_position::{self, DirectClosePositionParams};
use perp_router::instructions::direct_open_position::{self, DirectOpenPositionParams, OpenCloseKeys};
use perp_router::instructions::initialize_global_state::init_global_state;
use perp_router::instructions::initialize_market::{init_perp_market, InitializeMarketParams, MarketLinks};
use perp_router::instructions::initialize_trader::init_trader_account;
use perp_router::instructions::place_order_perp::{
    apply_fill_to_position, capture_fill, fill_terms, check_fill_overflow, check_order, check_worst_case_margin,
    find_maker_account, reserve_posted_margin, settle_fills, CapturedFill, MarginSource, PlaceOrderPerpParams,
    MAX_FILLS_PER_IX,
};
use perp_router::state::global::{GlobalState, RECOVERY_DRAIN_ONLY};
use perp_router::state::perp_market::PerpMarket;
use perp_router::state::trader_account::TraderAccount;
use perp_router::validation::loaders::{
    find_global_state_address, find_orderbook_address, find_perp_market_address, find_trader_account_address,
};

const PID: [u8; 32] = [9u8; 32];
const OWNER: [u8; 32] = [1u8; 32];
const MAKER: [u8; 32] = [11u8; 32];
const ADMIN: [u8; 32] = [2u8; 32];
const PHOENIX_MARKET: [u8; 32] = [4u8; 32];

fn trader(owner: &[u8; 32]) -> TraderAccount {
    let key = find_trader_account_address(owner, &PID).unwrap().0;
    init_trader_account(&PID, owner, &key, true).unwrap()
}

fn market() -> ([u8; 32], PerpMarket) {
    let key = find_perp_market_address(&PHOENIX_MARKET, &PID).unwrap().0;
    let links = MarketLinks {
        phoenix_market: PHOENIX_MARKET,
        oracle: [5u8; 32],
        base_mint: [6u8; 32],
        quote_mint: [3u8; 32],
        phoenix_base_vault: [7u8; 32],
        phoenix_quote_vault: [8u8; 32],
    };
    // 10x leverage: margin = notional / 10.
    let p = InitializeMarketParams { max_bps_per_slot: 50, max_leverage_bps: 100_000 };
    (key, init_perp_market(&PID, &ADMIN, &key, links, true, &p).unwrap())
}

fn global() -> GlobalState {
    let key = find_global_state_address(&PID).unwrap().0;
    init_global_state(&PID, &ADMIN, &key, true).unwrap()
}

fn keys(market_key: [u8; 32]) -> OpenCloseKeys {
    OpenCloseKeys {
        program_id: PID,
        trader_account: find_trader_account_address(&OWNER, &PID).unwrap().0,
        global_state: find_global_state_address(&PID).unwrap().0,
        perp_market: market_key,
    }
}

#[test]
fn open_fill_moves_margin_and_full_close_clears_the_slot() {
    let mut t = trader(&OWNER);
    t.collateral = 10_000;
    let market = [4u8; 32];
    apply_fill_to_position(&mut t, &market, 10, 100, 100, MarginSource::FreeCollateral, 1).unwrap();
    assert_eq!(t.collateral, 9_900);
    assert_eq!(t.positions_len, 1);
    assert_eq!((t.positions[0].size_stored, t.positions[0].entry_price, t.positions[0].margin_locked), (10, 100, 100));
    // Scale up at 200: entry = (10·100 + 10·200) / 20 = 150.
    apply_fill_to_position(&mut t, &market, 10, 200, 200, MarginSource::FreeCollateral, 1).unwrap();
    assert_eq!((t.positions[0].size_stored, t.positions[0].entry_price, t.positions[0].margin_locked), (20, 150, 300));
    assert_eq!(t.collateral + t.positions[0].margin_locked, 10_000);
    // Close all 20 at 160: +10 per unit → 200 PnL into the reserve, margin back.
    apply_fill_to_position(&mut t, &market, -20, 160, 320, MarginSource::FreeCollateral, 5).unwrap();
    assert_eq!(t.positions_len, 0);
    assert_eq!(t.collateral, 10_000);
    assert_eq!(t.pnl_reserve_len, 1);
    assert_eq!(t.pnl_reserve[0].amount, 200);
    assert_eq!(t.pnl_reserve[0].mature_slot, 5 + WARMUP_SLOTS);
}

#[test]
fn losing_close_and_flip() {
    let mut t = trader(&OWNER);
    t.collateral = 1_000;
    let market = [4u8; 32];
    apply_fill_to_position(&mut t, &market, 10, 100, 100, MarginSource::FreeCollateral, 1).unwrap();
    // Sell 15 at 90: closes the long 10 at −10 each (−100), flips 5 short at 90.
    apply_fill_to_position(&mut t, &market, -15, 90, 150, MarginSource::FreeCollateral, 1).unwrap();
    assert_eq!(t.positions_len, 1);
    assert_eq!((t.positions[0].size_stored, t.positions[0].entry_price, t.positions[0].margin_locked), (-5, 90, 50));
    // 900 + 100 released − 100 loss − 50 new margin.
    assert_eq!(t.collateral, 850);
    assert_eq!(t.pnl_reserve_len, 0);
}

#[test]
fn fill_errors() {
    let mut t = trader(&OWNER);
    t.collateral = 10;
    let market = [4u8; 32];
    assert_eq!(
        apply_fill_to_position(&mut t, &market, 1, 100, 100, MarginSource::FreeCollateral, 1),
        Err(ProgramError::Custom(PerpRouterError::InsufficientCollateral))
    );
    assert_eq!(
        apply_fill_to_position(&mut t, &market, 1, 100, 100, MarginSource::LockedMargin, 1),
        Err(ProgramError::Custom(PerpRouterError::MathOverflow))
    );
    assert_eq!(t.collateral, 10);
    t.collateral = 1_000_000;
    for i in 0..MAX_POSITIONS {
        apply_fill_to_position(&mut t, &[i as u8 + 20; 32], 1, 1, 1, MarginSource::FreeCollateral, 1).unwrap();
    }
    assert_eq!(
        apply_fill_to_position(&mut t, &[99u8; 32], 1, 1, 1, MarginSource::FreeCollateral, 1),
        Err(ProgramError::Custom(PerpRouterError::PositionTableFull))
    );
}

#[test]
fn order_checks() {
    let p = PlaceOrderPerpParams { side: 2, price_in_ticks: 1, num_base_lots: 1, client_order_id: 0 };
    assert_eq!(check_order(&p), Err(ProgramError::InvalidInstructionData));
    let p = PlaceOrderPerpParams { side: 1, price_in_ticks: 100, num_base_lots: 0, client_order_id: 0 };
    assert_eq!(check_order(&p), Err(ProgramError::InvalidInstructionData));
    let p = PlaceOrderPerpParams { side: 1, price_in_ticks: 100, num_base_lots: 10, client_order_id: 0 };
    assert_eq!(check_order(&p), Ok(Side::Ask));
    let mut t = trader(&OWNER);
    t.collateral = 150;
    t.locked_margin = 60;
    // Worst case 100 × 10 = 1000 notional → 100 margin at 10x; free is 90.
    assert_eq!(
        check_worst_case_margin(&t, &OWNER, &p, 100_000),
        Err(ProgramError::Custom(PerpRouterError::InsufficientCollateral))
    );
    t.locked_margin = 50;
    assert_eq!(check_worst_case_margin(&t, &OWNER, &p, 100_000), Ok(()));
    assert_eq!(check_worst_case_margin(&t, &MAKER, &p, 100_000), Err(ProgramError::Custom(PerpRouterError::InvalidAuthority)));
    assert_eq!(check_worst_case_margin(&t, &OWNER, &p, 0), Err(ProgramError::InvalidAccountData));
}

#[test]
fn fills_settle_on_taker_and_maker() {
    let mut taker = trader(&OWNER);
    taker.collateral = 1_000;
    let mut maker = trader(&MAKER);
    maker.collateral = 1_000;
    // The maker's resting ask of 10 at 100 reserved 100 of margin.
    reserve_posted_margin(&mut maker, Side::Ask, 100, 10, 0, 100_000).unwrap();
    assert_eq!(maker.locked_margin, 100);
    let maker_key = find_trader_account_address(&MAKER, &PID).unwrap().0;
    let mut makers = vec![maker];
    let keys = vec![maker_key];
    let owners = vec![PID];
    let fills = vec![CapturedFill { maker_id: MAKER, price_in_ticks: 100, base_lots_filled: 10 }];
    let market = [4u8; 32];
    settle_fills(&mut taker, &mut makers, &keys, &owners, &fills, &PID, &[0u8; 32], &market, Side::Bid, 100_000, 1).unwrap();
    assert_eq!(taker.collateral, 900);
    assert_eq!(taker.positions[0].size_stored, 10);
    assert_eq!(makers[0].locked_margin, 0);
    assert_eq!(makers[0].positions[0].size_stored, -10);
    assert_eq!(makers[0].positions[0].margin_locked, 100);
    assert_eq!(makers[0].collateral, 1_000);
    // A maker that is not among the accounts passed.
    let stray = vec![CapturedFill { maker_id: ADMIN, price_in_ticks: 100, base_lots_filled: 1 }];
    assert_eq!(
        settle_fills(&mut taker, &mut makers, &keys, &owners, &stray, &PID, &[0u8; 32], &market, Side::Bid, 100_000, 1),
        Err(ProgramError::Custom(PerpRouterError::MakerAccountMissing))
    );
    assert_eq!(find_maker_account(&keys, &MAKER, &PID), Ok(0));
    // A maker account owned by some other program.
    let foreign = vec![[42u8; 32]];
    assert_eq!(
        settle_fills(&mut taker, &mut makers, &keys, &foreign, &fills, &PID, &[0u8; 32], &market, Side::Bid, 100_000, 1),
        Err(ProgramError::IllegalOwner)
    );
}

#[test]
fn fill_capture_caps_at_the_account_limit() {
    let mut fills = Vec::new();
    let mut overflow = false;
    let f = CapturedFill { maker_id: MAKER, price_in_ticks: 1, base_lots_filled: 1 };
    for _ in 0..MAX_FILLS_PER_IX {
        capture_fill(&mut fills, &mut overflow, f);
    }
    assert_eq!(fills.len(), MAX_FILLS_PER_IX);
    assert_eq!(check_fill_overflow(overflow), Ok(()));
    capture_fill(&mut fills, &mut overflow, f);
    assert_eq!(fills.len(), MAX_FILLS_PER_IX);
    assert_eq!(check_fill_overflow(overflow), Err(ProgramError::Custom(PerpRouterError::TooManyFills)));
}

#[test]
fn cancel_releases_exactly_the_posted_margin() {
    let mut t = trader(&OWNER);
    t.collateral = 1_000;
    reserve_posted_margin(&mut t, Side::Ask, 250, 8, 0, 100_000).unwrap();
    assert_eq!(t.locked_margin, 200);
    assert_eq!(release_cancelled_margin(&mut t, 8, 250, 1, 1, 100_000), Ok(200));
    assert_eq!(t.locked_margin, 0);
    assert_eq!(
        release_cancelled_margin(&mut t, 8, 250, 1, 1, 100_000),
        Err(ProgramError::Custom(PerpRouterError::MathOverflow))
    );
    assert_eq!(release_cancelled_margin(&mut t, 8, 250, 1, 0, 100_000), Err(ProgramError::InvalidAccountData));
}

#[test]
fn trading_account_checks() {
    let t = trader(&OWNER);
    let (market_key, _) = market();
    let ob = find_orderbook_address(&market_key, &PID).unwrap().0;
    let ta = find_trader_account_address(&OWNER, &PID).unwrap().0;
    assert_eq!(check_trading_accounts(&PID, &OWNER, &ta, &market_key, &ob, &t), Ok(()));
    assert_eq!(
        check_trading_accounts(&PID, &OWNER, &ta, &market_key, &ta, &t),
        Err(ProgramError::Custom(PerpRouterError::InvalidPda))
    );
    assert_eq!(
        check_trading_accounts(&PID, &OWNER, &ob, &market_key, &ob, &t),
        Err(ProgramError::Custom(PerpRouterError::InvalidPda))
    );
    let other = trader(&MAKER);
    assert_eq!(
        check_trading_accounts(&PID, &OWNER, &ta, &market_key, &ob, &other),
        Err(ProgramError::Custom(PerpRouterError::InvalidAuthority))
    );
}

#[test]
fn direct_open_then_close_books_pnl() {
    let (market_key, mut m) = market();
    let g = global();
    let k = keys(market_key);
    let mut t = trader(&OWNER);
    t.collateral = 1_000;
    let open = DirectOpenPositionParams { size: 10, mark_price: 100, margin: 100 };
    direct_open_position::process(&mut t, &mut m, &g, &OWNER, &k, &open, 10).unwrap();
    assert_eq!(t.collateral, 900);
    assert_eq!(m.get_open_interest(), 10);
    assert_eq!((m.last_oracle_price, m.last_oracle_slot), (100, 10));
    // Closing at the entry price: no PnL, the margin comes back.
    let close = DirectClosePositionParams { mark_price: 100 };
    direct_close_position::process(&mut t, &mut m, &g, &OWNER, &k, &close, 11).unwrap();
    assert_eq!(t.positions_len, 0);
    assert_eq!(t.collateral, 1_000);
    assert_eq!(m.get_open_interest(), 0);
    assert_eq!(
        direct_close_position::process(&mut t, &mut m, &g, &OWNER, &k, &close, 12),
        Err(ProgramError::Custom(PerpRouterError::NotInitialized))
    );
}

#[test]
fn direct_open_errors() {
    let (market_key, mut m) = market();
    let mut g = global();
    let k = keys(market_key);
    let mut t = trader(&OWNER);
    t.collateral = 1_000;
    let too_big = DirectOpenPositionParams { size: 200, mark_price: 100, margin: 100 };
    assert_eq!(
        direct_open_position::process(&mut t, &mut m, &g, &OWNER, &k, &too_big, 10),
        Err(ProgramError::Custom(PerpRouterError::LeverageExceeded))
    );
    let over = DirectOpenPositionParams { size: 1, mark_price: 100, margin: 5_000 };
    assert_eq!(
        direct_open_position::process(&mut t, &mut m, &g, &OWNER, &k, &over, 10),
        Err(ProgramError::Custom(PerpRouterError::InsufficientCollateral))
    );
    let zero = DirectOpenPositionParams { size: 0, mark_price: 100, margin: 5 };
    assert_eq!(
        direct_open_position::process(&mut t, &mut m, &g, &OWNER, &k, &zero, 10),
        Err(ProgramError::InvalidInstructionData)
    );
    let ok = DirectOpenPositionParams { size: 1, mark_price: 100, margin: 10 };
    let mut bad = k;
    bad.perp_market = [0u8; 32];
    assert_eq!(
        direct_open_position::process(&mut t, &mut m, &g, &OWNER, &bad, &ok, 10),
        Err(ProgramError::Custom(PerpRouterError::InvalidPda))
    );
    g.recovery_state = RECOVERY_DRAIN_ONLY;
    assert_eq!(
        direct_open_position::process(&mut t, &mut m, &g, &OWNER, &k, &ok, 10),
        Err(ProgramError::Custom(PerpRouterError::RecoveryDrainOnly))
    );
    assert_eq!(t.collateral, 1_000);
    assert_eq!(g.get_a(), FIXED_POINT_ONE);
}

#[test]
fn swap_data_layout() {
    let data = swap_instruction_data(Side::Ask, 5, 0, 0, 7, 0x0102);
    assert_eq!(data.len(), 57);
    assert_eq!(&data[..4], &[0, 1, 1, 0]);
    assert_eq!(&data[4..12], &5u64.to_le_bytes());
    assert_eq!(&data[28..36], &7u64.to_le_bytes());
    assert_eq!(&data[38..54], &0x0102u128.to_le_bytes());
    assert_eq!(&data[54..], &[0, 0, 0]);
}

#[test]
fn fill_terms_refuses_sizes_beyond_a_signed_position() {
    assert_eq!(fill_terms(Side::Ask, 2, 5, 10_000), Ok((10, -5)));
    assert_eq!(fill_terms(Side::Bid, 0, i64::MAX as u64, 10_000), Ok((0, i64::MAX)));
    assert_eq!(
        fill_terms(Side::Bid, 0, i64::MAX as u64 + 1, 10_000),
        Err(ProgramError::Custom(PerpRouterError::MathOverflow))
    );
}
