use perp_router::error::{assert_with_msg, PerpRouterError, ProgramError};
use perp_router::instruction::{route, PerpRouterInstruction, Route, EXTERNAL_UNDELEGATE_DISCRIMINATOR};
use perp_router::instructions::delegate_global_state;
use perp_router::instructions::delegate_orderbook;
use perp_router::instructions::initialize_global_state::init_global_state;
use perp_router::instructions::initialize_market::{init_perp_market, InitializeMarketParams, MarketLinks};
use perp_router::instructions::initialize_orderbook::{prepare_orderbook, InitializeOrderbookParams};
use perp_router::phoenix::flows::{
    check_market_delegation, check_receipt, check_session, lots_to_atoms, withdrawal_debit, LotReceipt,
    RequestDepositParams,
};
use perp_router::phoenix::instruction::PhoenixInstruction;
use perp_router::validation::loaders::{find_global_state_address, find_orderbook_address, find_perp_market_address};

const PID: [u8; 32] = [9u8; 32];
const ADMIN: [u8; 32] = [2u8; 32];

#[test]
fn routing_by_tag_and_discriminator() {
    assert_eq!(route(&[]), Err(ProgramError::InvalidInstructionData));
    assert_eq!(route(&[24]), Err(ProgramError::InvalidInstructionData));
    assert_eq!(route(&[12, 1, 2, 3]), Ok(Route::Instruction(PerpRouterInstruction::OpenPosition)));
    let mut data = EXTERNAL_UNDELEGATE_DISCRIMINATOR.to_vec();
    data.extend_from_slice(&[1, 2]);
    assert_eq!(route(&data), Ok(Route::ExternalUndelegate));
    // Seven bytes of the discriminator are not enough: 196 is no tag.
    assert_eq!(route(&EXTERNAL_UNDELEGATE_DISCRIMINATOR[..7]), Err(ProgramError::InvalidInstructionData));
    for t in 0..24u8 {
        let ix = PerpRouterInstruction::from_tag(t).unwrap();
        assert_eq!(ix.tag(), t);
        assert_eq!(route(&[t]), Ok(Route::Instruction(ix)));
    }
    assert_eq!(PerpRouterInstruction::from_tag(200), None);
}

#[test]
fn phoenix_tags_round_trip() {
    let mut count = 0;
    for t in 0..=255u8 {
        if let Some(ix) = PhoenixInstruction::try_from_tag(t) {
            assert_eq!(ix.tag(), t);
            assert_eq!(ix.to_vec(), vec![t]);
            count += 1;
        }
    }
    assert_eq!(count, 43);
    assert_eq!(PhoenixInstruction::RequestDeposit.tag(), 204);
    assert_eq!(PhoenixInstruction::try_from_tag(215), None);
}

#[test]
fn phoenix_flow_decisions() {
    assert_eq!(RequestDepositParams { quote_lots: 0, base_lots: 0 }.validate(), Err(ProgramError::InvalidInstructionData));
    assert_eq!(RequestDepositParams { quote_lots: 1, base_lots: 0 }.validate(), Ok(()));
    assert_eq!(lots_to_atoms(3, 1_000), Ok(3_000));
    assert_eq!(lots_to_atoms(u64::MAX, 2), Err(ProgramError::InvalidInstructionData));
    let mut w = LotReceipt { trader: [1u8; 32], market: [2u8; 32], base_lots: 10, quote_lots: 5, processed: 0 };
    assert_eq!(withdrawal_debit(&mut w, 0, 0), Err(ProgramError::InsufficientFunds));
    assert_eq!((w.base_lots, w.quote_lots, w.processed), (10, 5, 0));
    assert_eq!(withdrawal_debit(&mut w, 4, 100), Ok((4, 5)));
    assert_eq!((w.base_lots, w.quote_lots, w.processed), (4, 5, 1));
    let r = LotReceipt { trader: [1u8; 32], market: [2u8; 32], base_lots: 1, quote_lots: 1, processed: 0 };
    let key = [3u8; 32];
    assert_eq!(check_receipt(&r, 0, &[1u8; 32], Some([2u8; 32]), &key, &key), Ok(()));
    assert_eq!(check_receipt(&r, 1, &[1u8; 32], None, &key, &key), Err(ProgramError::InvalidAccountData));
    assert_eq!(check_receipt(&r, 0, &[9u8; 32], None, &key, &key), Err(ProgramError::InvalidArgument));
    assert_eq!(check_receipt(&r, 0, &[1u8; 32], Some([9u8; 32]), &key, &key), Err(ProgramError::InvalidArgument));
    assert_eq!(check_receipt(&r, 0, &[1u8; 32], None, &key, &[4u8; 32]), Err(ProgramError::InvalidSeeds));
    let (o, s, t) = ([1u8; 32], [2u8; 32], [3u8; 32]);
    assert_eq!(check_session(&o, &s, &o, &s, &t, &t, false), Ok(()));
    assert_eq!(check_session(&o, &s, &s, &s, &t, &t, false), Err(ProgramError::InvalidArgument));
    assert_eq!(check_session(&o, &s, &o, &o, &t, &t, false), Err(ProgramError::MissingRequiredSignature));
    assert_eq!(check_session(&o, &s, &o, &s, &t, &o, false), Err(ProgramError::InvalidSeeds));
    assert_eq!(check_session(&o, &s, &o, &s, &t, &t, true), Err(ProgramError::InvalidAccountData));
    assert_eq!(check_market_delegation(&o, &o, 7, &t, &t, 7), Ok(()));
    assert_eq!(check_market_delegation(&o, &s, 7, &t, &t, 7), Err(ProgramError::InvalidArgument));
    assert_eq!(check_market_delegation(&o, &o, 0, &t, &t, 0), Err(ProgramError::InvalidAccountData));
    assert_eq!(check_market_delegation(&o, &o, 7, &t, &t, 8), Err(ProgramError::InvalidSeeds));
}

#[test]
fn errors_convert_and_assert() {
    assert_eq!(ProgramError::from(PerpRouterError::InvalidPda), ProgramError::Custom(PerpRouterError::InvalidPda));
    assert_eq!(PerpRouterError::InvalidAuthority.code(), 0);
    assert_eq!(PerpRouterError::MathOverflow.code(), 14);
    assert_eq!(PerpRouterError::TooManyFills.code(), 19);
    assert_eq!(assert_with_msg(true, ProgramError::InvalidArgument, "fine"), Ok(()));
    assert_eq!(assert_with_msg(false, ProgramError::InvalidArgument, "not fine"), Err(ProgramError::InvalidArgument));
}

#[test]
fn orderbook_setup_and_delegation_checks() {
    let bad_fee = InitializeOrderbookParams { tick_size_in_quote_lots_per_base_unit: 1, base_lots_per_base_unit: 1, taker_fee_bps: 10_001 };
    assert_eq!(bad_fee.validate(), Err(ProgramError::InvalidInstructionData));
    let zero_tick = InitializeOrderbookParams { tick_size_in_quote_lots_per_base_unit: 0, base_lots_per_base_unit: 1, taker_fee_bps: 0 };
    assert_eq!(zero_tick.validate(), Err(ProgramError::InvalidInstructionData));
    let phoenix_market = [4u8; 32];
    let market_key = find_perp_market_address(&phoenix_market, &PID).unwrap().0;
    let links = MarketLinks {
        phoenix_market,
        oracle: [5u8; 32],
        base_mint: [6u8; 32],
        quote_mint: [3u8; 32],
        phoenix_base_vault: [7u8; 32],
        phoenix_quote_vault: [8u8; 32],
    };
    let mut m = init_perp_market(&PID, &ADMIN, &market_key, links, true, &InitializeMarketParams { max_bps_per_slot: 0, max_leverage_bps: 0 }).unwrap();
    let (ob, ob_bump) = find_orderbook_address(&market_key, &PID).unwrap();
    assert_eq!(prepare_orderbook(&PID, &ADMIN, &market_key, &PID, &m, &ob, true), Ok(ob_bump));
    assert_eq!(prepare_orderbook(&PID, &[1u8; 32], &market_key, &PID, &m, &ob, true), Err(ProgramError::Custom(PerpRouterError::InvalidAuthority)));
    assert_eq!(prepare_orderbook(&PID, &ADMIN, &market_key, &[0u8; 32], &m, &ob, true), Err(ProgramError::IllegalOwner));
    assert_eq!(prepare_orderbook(&PID, &ADMIN, &market_key, &PID, &m, &ob, false), Err(ProgramError::Custom(PerpRouterError::AlreadyInitialized)));
    assert_eq!(delegate_orderbook::check_delegation(&PID, &ADMIN, &market_key, &m, &ob), Err(ProgramError::InvalidAccountData));
    m.orderbook_bump = ob_bump;
    assert_eq!(prepare_orderbook(&PID, &ADMIN, &market_key, &PID, &m, &ob, true), Err(ProgramError::Custom(PerpRouterError::AlreadyInitialized)));
    assert_eq!(delegate_orderbook::check_delegation(&PID, &ADMIN, &market_key, &m, &ob), Ok(()));
    let gs_key = find_global_state_address(&PID).unwrap().0;
    let mut g = init_global_state(&PID, &ADMIN, &gs_key, true).unwrap();
    assert_eq!(delegate_global_state::check_delegation(&PID, &ADMIN, &gs_key, &g), Ok(()));
    assert_eq!(delegate_global_state::check_delegation(&PID, &[1u8; 32], &gs_key, &g), Err(ProgramError::Custom(PerpRouterError::InvalidAuthority)));
    g.bump = g.bump.wrapping_add(1);
    assert_eq!(delegate_global_state::check_delegation(&PID, &ADMIN, &gs_key, &g), Err(ProgramError::Custom(PerpRouterError::InvalidPda)));
}
