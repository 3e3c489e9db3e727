use perp_router::error::ProgramError;
use perp_router::instruction::PerpRouterInstruction;
use perp_router::constants::{ASSOCIATED_TOKEN_PROGRAM_ID, TOKEN_PROGRAM_ID};
use perp_router::instructions::schedule_cranks::{crank_task, schedule_requests, ScheduleCranksParams};
use perp_router::state::global::GlobalState;
use perp_router::state::perp_market::PerpMarket;
use perp_router::state::token::token_balance;
use perp_router::state::vault::{find_collateral_vault_address, find_perp_token_account};
use perp_router::validation::loaders::{
    find_global_state_address, find_orderbook_address, find_perp_authority_address, find_trader_account_address,
};

use magicblock_magic_program_api::args::ScheduleTaskArgs;
use magicblock_magic_program_api::compat::{AccountMeta, Instruction};
use magicblock_magic_program_api::instruction::MagicBlockInstruction;
use solana_program::pubkey::Pubkey;
use spl_token::solana_program::program_option::COption;
use spl_token::solana_program::program_pack::Pack;
use spl_token::state::{Account, AccountState};

const PID: [u8; 32] = [9u8; 32];

#[test]
fn pdas_match_the_runtime_derivation() {
    let pid = Pubkey::new_from_array(PID);
    let (gs, gs_bump) = Pubkey::find_program_address(&[b"global_state"], &pid);
    assert_eq!(find_global_state_address(&PID), Some((gs.to_bytes(), gs_bump)));
    let owner = [1u8; 32];
    let (ta, ta_bump) = Pubkey::find_program_address(&[b"trader_account", &owner], &pid);
    assert_eq!(find_trader_account_address(&owner, &PID), Some((ta.to_bytes(), ta_bump)));
    assert_ne!(ta.to_bytes(), owner);
    let market = [4u8; 32];
    let (ob, ob_bump) = Pubkey::find_program_address(&[b"orderbook", &market], &pid);
    assert_eq!(find_orderbook_address(&market, &PID), Some((ob.to_bytes(), ob_bump)));
}

#[test]
fn vault_is_the_authority_associated_token_account() {
    let pid = Pubkey::new_from_array(PID);
    let (authority, _) = Pubkey::find_program_address(&[b"perp_authority"], &pid);
    assert_eq!(find_perp_authority_address(&PID).unwrap().0, authority.to_bytes());
    let mint = [3u8; 32];
    let token_program = spl_token::ID.to_bytes();
    let ata_program = Pubkey::new_from_array(spl_associated_token_account::ID.to_bytes());
    let (ata, _) = Pubkey::find_program_address(&[&authority.to_bytes(), &token_program, &mint], &ata_program);
    assert_eq!(find_collateral_vault_address(&mint, &PID), Some(ata.to_bytes()));
    assert_eq!(find_perp_token_account(&mint, &PID), Some(ata.to_bytes()));
    assert_ne!(ata.to_bytes(), mint);
}

fn packed_token_account(amount: u64, state: AccountState) -> Vec<u8> {
    let account = Account {
        mint: [3u8; 32].into(),
        owner: [1u8; 32].into(),
        amount,
        delegate: COption::None,
        state,
        is_native: COption::None,
        delegated_amount: 0,
        close_authority: COption::None,
    };
    let mut data = vec![0u8; Account::LEN];
    Account::pack(account, &mut data).unwrap();
    data
}

#[test]
fn token_balance_reads_the_amount() {
    let data = packed_token_account(123_456, AccountState::Initialized);
    assert_eq!(token_balance(&data), Ok(123_456));
    assert_eq!(token_balance(&data[..100]), Err(ProgramError::InvalidAccountData));
    let uninit = packed_token_account(5, AccountState::Uninitialized);
    assert_eq!(token_balance(&uninit), Err(ProgramError::UninitializedAccount));
}

#[test]
fn schedule_requests_encode_the_three_tasks() {
    let admin = [2u8; 32];
    let gs = [5u8; 32];
    let p = ScheduleCranksParams { funding_ms: 0, mature_pnl_ms: 250, recovery_check_ms: 0, iterations: 0 };
    let reqs = schedule_requests(&p, &PID, &admin, &gs).unwrap();
    assert_eq!(reqs.len(), 3);
    let expected = |task_id: i64, interval: i64, tag: u8| {
        let cranked = Instruction {
            program_id: PID.into(),
            accounts: vec![AccountMeta::new(admin.into(), true), AccountMeta::new(gs.into(), false)],
            data: vec![tag],
        };
        bincode::serialize(&MagicBlockInstruction::ScheduleTask(ScheduleTaskArgs {
            task_id,
            execution_interval_millis: interval,
            iterations: i64::MAX,
            instructions: vec![cranked],
        }))
        .unwrap()
    };
    assert_eq!(reqs[0], expected(1, 1000, PerpRouterInstruction::CrankFunding.tag()));
    assert_eq!(reqs[1], expected(2, 250, PerpRouterInstruction::MaturePnl.tag()));
    assert_eq!(reqs[2], expected(3, 5000, PerpRouterInstruction::RecoveryCheck.tag()));
    assert_eq!(PerpRouterInstruction::CrankFunding.tag(), 16);
}

#[test]
fn index_fields_read_back_what_was_written() {
    let mut g = GlobalState::zeroed();
    g.set_a(-7);
    g.set_k(i128::MAX);
    g.set_f(i128::MIN);
    g.set_b(123);
    assert_eq!((g.get_a(), g.get_k(), g.get_f(), g.get_b()), (-7, i128::MAX, i128::MIN, 123));
    assert_eq!(g.a, (-7i128).to_le_bytes());
    let mut m: PerpMarket = PerpMarket {
        phoenix_market: [0u8; 32],
        oracle: [0u8; 32],
        base_mint: [0u8; 32],
        quote_mint: [0u8; 32],
        phoenix_base_vault: [0u8; 32],
        phoenix_quote_vault: [0u8; 32],
        last_oracle_price: 0,
        last_oracle_slot: 0,
        max_bps_per_slot: 0,
        max_leverage_bps: 0,
        funding_index: [0u8; 16],
        open_interest: [0u8; 16],
        authority: [0u8; 32],
        bump: 0,
        orderbook_bump: 0,
        _pad: [0u8; 6],
    };
    m.set_funding_index(1_000_000_000_000_000_000);
    m.set_open_interest(-42);
    assert_eq!(m.get_funding_index(), 1_000_000_000_000_000_000);
    assert_eq!(m.get_open_interest(), -42);
    assert_eq!(m.open_interest, (-42i128).to_le_bytes());
}

#[test]
fn token_program_ids_match_the_spl_crates() {
    assert_eq!(TOKEN_PROGRAM_ID, spl_token::ID.to_bytes());
    assert_eq!(ASSOCIATED_TOKEN_PROGRAM_ID, spl_associated_token_account::ID.to_bytes());
}

#[test]
fn crank_task_runs_the_tag_with_admin_and_global_state() {
    let admin = [2u8; 32];
    let gs = [5u8; 32];
    let t = crank_task(3, 5000, 7, &PID, &admin, &gs, 22);
    assert_eq!((t.task_id, t.interval_ms, t.iterations), (3, 5000, 7));
    assert_eq!(t.instruction.program_id, PID);
    assert_eq!(t.instruction.data, vec![22u8]);
    assert_eq!(t.instruction.accounts.len(), 2);
    let a0 = t.instruction.accounts[0];
    let a1 = t.instruction.accounts[1];
    assert_eq!((a0.key, a0.is_signer, a0.is_writable), (admin, true, true));
    assert_eq!((a1.key, a1.is_signer, a1.is_writable), (gs, false, true));
}
