//! Program-derived addresses (PDAs) of the router's accounts.
//!
//! Each `find_*` function returns the address and bump seed of an account,
//! or `None` in the (improbable) case that no bump seed yields a valid
//! program address.

use vstd::prelude::*;

use crate::constants::{
    ASSOCIATED_TOKEN_PROGRAM_ID, TOKEN_PROGRAM_ID, DEPOSIT_RECEIPT_SEED, GLOBAL_STATE_SEED, ORDERBOOK_SEED, PERP_AUTHORITY_SEED, PERP_MARKET_SEED,
    TRADER_ACCOUNT_SEED, WITHDRAWAL_RECEIPT_SEED,
};
use crate::error::{PerpRouterError, ProgramError};
use crate::state::bytes::{key_eq, Pubkey};

verus! {

/// The program address and bump seed that `Pubkey::try_find_program_address`
/// derives from `seeds` and `program_id`, if any.
pub uninterp spec fn program_address(seeds: Seq<Seq<u8>>, program_id: Seq<u8>) -> Option<(Seq<u8>, u8)>;

/// Whether `r` is what the address derivation gives for `seeds`.
pub open spec fn is_program_address(r: Option<(Pubkey, u8)>, seeds: Seq<Seq<u8>>, program_id: Pubkey) -> bool {
    match r {
        Some(found) => program_address(seeds, program_id@) == Some((found.0@, found.1)),
        None => program_address(seeds, program_id@) is None,
    }
}

/// Whether `key` is the program address that `seeds` derive under
/// `program_id` (false when no bump seed yields one).
pub open spec fn is_pda_of(key: Seq<u8>, seeds: Seq<Seq<u8>>, program_id: Pubkey) -> bool {
    match program_address(seeds, program_id@) {
        Some(found) => found.0 == key,
        None => false,
    }
}

/// Seeds of the singleton `GlobalState`.
pub open spec fn global_state_seeds() -> Seq<Seq<u8>> {
    seq![GLOBAL_STATE_SEED@]
}

/// Seeds of the router's SPL/CPI authority.
pub open spec fn perp_authority_seeds() -> Seq<Seq<u8>> {
    seq![PERP_AUTHORITY_SEED@]
}

/// Seeds of the `PerpMarket` of a Phoenix market.
pub open spec fn perp_market_seeds(phoenix_market: Seq<u8>) -> Seq<Seq<u8>> {
    seq![PERP_MARKET_SEED@, phoenix_market]
}

/// Seeds of the `TraderAccount` of `owner`.
pub open spec fn trader_account_seeds(owner: Seq<u8>) -> Seq<Seq<u8>> {
    seq![TRADER_ACCOUNT_SEED@, owner]
}

/// Seeds of the deposit receipt of `trader`.
pub open spec fn deposit_receipt_seeds(trader: Seq<u8>) -> Seq<Seq<u8>> {
    seq![DEPOSIT_RECEIPT_SEED@, trader]
}

/// Seeds of the withdrawal receipt of `trader`.
pub open spec fn withdrawal_receipt_seeds(trader: Seq<u8>) -> Seq<Seq<u8>> {
    seq![WITHDRAWAL_RECEIPT_SEED@, trader]
}

/// Seeds of the orderbook of a perp market.
pub open spec fn orderbook_seeds(perp_market: Seq<u8>) -> Seq<Seq<u8>> {
    seq![ORDERBOOK_SEED@, perp_market]
}

/// Seeds of the associated token account of `wallet` for `mint` under the
/// SPL Token program: `[wallet, token_program, mint]`.
pub open spec fn associated_token_seeds(wallet: Seq<u8>, mint: Seq<u8>) -> Seq<Seq<u8>> {
    seq![wallet, TOKEN_PROGRAM_ID@, mint]
}

/// Whether a derivation found `key`.
pub fn found_address_is(found: Option<(Pubkey, u8)>, key: &Pubkey) -> (b: bool)
    ensures
        b == (found matches Some(f) && f.0@ == key@),
{
    match found {
        Some((k, _bump)) => key_eq(&k, key),
        None => false,
    }
}

/// Whether `key` and `bump` are the program address and bump seed that
/// `seeds` derive under `program_id`.
pub open spec fn is_pda_with_bump(key: Seq<u8>, bump: u8, seeds: Seq<Seq<u8>>, program_id: Pubkey) -> bool {
    program_address(seeds, program_id@) == Some((key, bump))
}

/// Whether a derivation found `key` with bump seed `bump`.
pub fn found_address_and_bump_are(found: Option<(Pubkey, u8)>, key: &Pubkey, bump: u8) -> (b: bool)
    ensures
        b == (found matches Some(f) && f.0@ == key@ && f.1 == bump),
{
    match found {
        Some((k, b)) => key_eq(&k, key) && b == bump,
        None => false,
    }
}

/// `solana_program::pubkey::Pubkey::try_find_program_address`: searches the
/// bump seeds from 255 down for the first one whose address, derived from
/// `seeds`, the bump and `program_id`, is off the curve. The result is
/// named by `program_address`; nothing more is claimed of it.
#[verifier::external_body]
fn try_find_program_address(seeds: &Vec<Vec<u8>>, program_id: &Pubkey) -> (r: Option<(Pubkey, u8)>)
    ensures
        match r {
            Some(found) => program_address(seeds.deep_view(), program_id@) == Some((found.0@, found.1)),
            None => program_address(seeds.deep_view(), program_id@) is None,
        },
{
    let refs: Vec<&[u8]> = seeds.iter().map(|s| s.as_slice()).collect();
    let id = solana_program::pubkey::Pubkey::new_from_array(*program_id);
    solana_program::pubkey::Pubkey::try_find_program_address(&refs, &id).map(|(k, b)| (k.to_bytes(), b))
}

/// The bytes of a seed prefix or key, as a seed.
fn seed_of(bytes: &[u8]) -> (s: Vec<u8>)
    ensures
        s@ == bytes@,
{
    let mut s: Vec<u8> = Vec::new();
    let mut i: usize = 0;
    while i < bytes.len()
        invariant
            0 <= i <= bytes.len(),
            s@ == bytes@.take(i as int),
        decreases bytes.len() - i,
    {
        s.push(bytes[i]);
        i = i + 1;
        assert(s@ =~= bytes@.take(i as int));
    }
    assert(bytes@.take(bytes.len() as int) =~= bytes@);
    s
}

/// The router's singleton SPL/CPI authority: seeds `[PERP_AUTHORITY_SEED]`.
pub fn find_perp_authority_address(program_id: &Pubkey) -> (r: Option<(Pubkey, u8)>)
    ensures
        is_program_address(r, seq![PERP_AUTHORITY_SEED@], *program_id),
{
    let seeds = vec![seed_of(&PERP_AUTHORITY_SEED)];
    assert(seeds.deep_view()[0] =~= PERP_AUTHORITY_SEED@);
    assert(seeds.deep_view() =~= seq![PERP_AUTHORITY_SEED@]);
    try_find_program_address(&seeds, program_id)
}

/// The singleton `GlobalState`: seeds `[GLOBAL_STATE_SEED]`.
pub fn find_global_state_address(program_id: &Pubkey) -> (r: Option<(Pubkey, u8)>)
    ensures
        is_program_address(r, seq![GLOBAL_STATE_SEED@], *program_id),
{
    let seeds = vec![seed_of(&GLOBAL_STATE_SEED)];
    assert(seeds.deep_view()[0] =~= GLOBAL_STATE_SEED@);
    assert(seeds.deep_view() =~= seq![GLOBAL_STATE_SEED@]);
    try_find_program_address(&seeds, program_id)
}

/// The `PerpMarket` of a Phoenix market: seeds `[PERP_MARKET_SEED, phoenix_market]`.
pub fn find_perp_market_address(phoenix_market: &Pubkey, program_id: &Pubkey) -> (r: Option<(Pubkey, u8)>)
    ensures
        is_program_address(r, seq![PERP_MARKET_SEED@, phoenix_market@], *program_id),
{
    let seeds = vec![seed_of(&PERP_MARKET_SEED), seed_of(phoenix_market)];
    assert(seeds.deep_view()[0] =~= PERP_MARKET_SEED@);
    assert(seeds.deep_view()[1] =~= phoenix_market@);
    assert(seeds.deep_view() =~= seq![PERP_MARKET_SEED@, phoenix_market@]);
    try_find_program_address(&seeds, program_id)
}

/// The `TraderAccount` of `owner`: seeds `[TRADER_ACCOUNT_SEED, owner]`.
pub fn find_trader_account_address(owner: &Pubkey, program_id: &Pubkey) -> (r: Option<(Pubkey, u8)>)
    ensures
        is_program_address(r, seq![TRADER_ACCOUNT_SEED@, owner@], *program_id),
{
    let seeds = vec![seed_of(&TRADER_ACCOUNT_SEED), seed_of(owner)];
    assert(seeds.deep_view()[0] =~= TRADER_ACCOUNT_SEED@);
    assert(seeds.deep_view()[1] =~= owner@);
    assert(seeds.deep_view() =~= seq![TRADER_ACCOUNT_SEED@, owner@]);
    try_find_program_address(&seeds, program_id)
}

/// The deposit receipt of `trader` (one in flight per trader): seeds
/// `[DEPOSIT_RECEIPT_SEED, trader]`.
pub fn find_deposit_receipt_address(trader: &Pubkey, program_id: &Pubkey) -> (r: Option<(Pubkey, u8)>)
    ensures
        is_program_address(r, seq![DEPOSIT_RECEIPT_SEED@, trader@], *program_id),
{
    let seeds = vec![seed_of(&DEPOSIT_RECEIPT_SEED), seed_of(trader)];
    assert(seeds.deep_view()[0] =~= DEPOSIT_RECEIPT_SEED@);
    assert(seeds.deep_view()[1] =~= trader@);
    assert(seeds.deep_view() =~= seq![DEPOSIT_RECEIPT_SEED@, trader@]);
    try_find_program_address(&seeds, program_id)
}

/// The withdrawal receipt of `trader`: seeds `[WITHDRAWAL_RECEIPT_SEED, trader]`.
pub fn find_withdrawal_receipt_address(trader: &Pubkey, program_id: &Pubkey) -> (r: Option<(Pubkey, u8)>)
    ensures
        is_program_address(r, seq![WITHDRAWAL_RECEIPT_SEED@, trader@], *program_id),
{
    let seeds = vec![seed_of(&WITHDRAWAL_RECEIPT_SEED), seed_of(trader)];
    assert(seeds.deep_view()[0] =~= WITHDRAWAL_RECEIPT_SEED@);
    assert(seeds.deep_view()[1] =~= trader@);
    assert(seeds.deep_view() =~= seq![WITHDRAWAL_RECEIPT_SEED@, trader@]);
    try_find_program_address(&seeds, program_id)
}

/// The orderbook of a perp market: seeds `[ORDERBOOK_SEED, perp_market]`.
pub fn find_orderbook_address(perp_market: &Pubkey, program_id: &Pubkey) -> (r: Option<(Pubkey, u8)>)
    ensures
        is_program_address(r, seq![ORDERBOOK_SEED@, perp_market@], *program_id),
{
    let seeds = vec![seed_of(&ORDERBOOK_SEED), seed_of(perp_market)];
    assert(seeds.deep_view()[0] =~= ORDERBOOK_SEED@);
    assert(seeds.deep_view()[1] =~= perp_market@);
    assert(seeds.deep_view() =~= seq![ORDERBOOK_SEED@, perp_market@]);
    try_find_program_address(&seeds, program_id)
}

/// The associated token account of `wallet` for `mint`: the address that
/// the seeds `[wallet, token_program, mint]` derive under the associated
/// token account program, if a bump seed yields one.
pub fn find_associated_token_address(wallet: &Pubkey, mint: &Pubkey) -> (r: Option<(Pubkey, u8)>)
    ensures
        is_program_address(r, associated_token_seeds(wallet@, mint@), ASSOCIATED_TOKEN_PROGRAM_ID),
{
    let seeds = vec![seed_of(wallet), seed_of(&TOKEN_PROGRAM_ID), seed_of(mint)];
    assert(seeds.deep_view()[0] =~= wallet@);
    assert(seeds.deep_view()[1] =~= TOKEN_PROGRAM_ID@);
    assert(seeds.deep_view()[2] =~= mint@);
    assert(seeds.deep_view() =~= associated_token_seeds(wallet@, mint@));
    try_find_program_address(&seeds, &ASSOCIATED_TOKEN_PROGRAM_ID)
}

/// `Ok` when `key` is the global-state PDA, `InvalidPda` otherwise.
pub fn check_global_state_key(program_id: &Pubkey, key: &Pubkey) -> (r: Result<(), ProgramError>)
    ensures
        r == (if is_pda_of(key@, global_state_seeds(), *program_id) {
            Ok(())
        } else {
            Err(ProgramError::Custom(PerpRouterError::InvalidPda))
        }),
{
    if found_address_is(find_global_state_address(program_id), key) {
        Ok(())
    } else {
        Err(ProgramError::Custom(PerpRouterError::InvalidPda))
    }
}

/// `Ok` when `key` is the `PerpMarket` PDA of `phoenix_market`,
/// `InvalidPda` otherwise.
pub fn check_perp_market_key(program_id: &Pubkey, phoenix_market: &Pubkey, key: &Pubkey) -> (r: Result<(), ProgramError>)
    ensures
        r == (if is_pda_of(key@, perp_market_seeds(phoenix_market@), *program_id) {
            Ok(())
        } else {
            Err(ProgramError::Custom(PerpRouterError::InvalidPda))
        }),
{
    if found_address_is(find_perp_market_address(phoenix_market, program_id), key) {
        Ok(())
    } else {
        Err(ProgramError::Custom(PerpRouterError::InvalidPda))
    }
}

/// `Ok` when `key` is the `TraderAccount` PDA of `owner`, `InvalidPda`
/// otherwise.
pub fn check_trader_account_key(program_id: &Pubkey, owner: &Pubkey, key: &Pubkey) -> (r: Result<(), ProgramError>)
    ensures
        r == (if is_pda_of(key@, trader_account_seeds(owner@), *program_id) {
            Ok(())
        } else {
            Err(ProgramError::Custom(PerpRouterError::InvalidPda))
        }),
{
    if found_address_is(find_trader_account_address(owner, program_id), key) {
        Ok(())
    } else {
        Err(ProgramError::Custom(PerpRouterError::InvalidPda))
    }
}

/// `Ok` when `key` is the router's authority PDA, `InvalidPda` otherwise.
pub fn check_perp_authority_key(program_id: &Pubkey, key: &Pubkey) -> (r: Result<(), ProgramError>)
    ensures
        r == (if is_pda_of(key@, perp_authority_seeds(), *program_id) {
            Ok(())
        } else {
            Err(ProgramError::Custom(PerpRouterError::InvalidPda))
        }),
{
    if found_address_is(find_perp_authority_address(program_id), key) {
        Ok(())
    } else {
        Err(ProgramError::Custom(PerpRouterError::InvalidPda))
    }
}

} // verus!
