//! Collateral and base vaults: associated token accounts (ATAs) owned by
//! the `perp_authority` PDA, one per mint.

use vstd::prelude::*;

use crate::constants::{ASSOCIATED_TOKEN_PROGRAM_ID, PERP_AUTHORITY_SEED};
use crate::state::bytes::Pubkey;
use crate::validation::loaders::{
    associated_token_seeds, find_associated_token_address, find_perp_authority_address, program_address,
};

verus! {

/// `spl_associated_token_account::get_associated_token_address`: calls
/// `Pubkey::find_program_address` with seeds `[wallet, token_program, mint]`
/// under the associated token account program, which is
/// `try_find_program_address` unwrapped. The result is therefore the
/// address that `program_address` names for those seeds. That call panics
/// when no bump seed yields an address; `requires` leaves that input out.
#[verifier::external_body]
fn get_associated_token_address(wallet: &Pubkey, mint: &Pubkey) -> (r: Pubkey)
    requires
        program_address(associated_token_seeds(wallet@, mint@), ASSOCIATED_TOKEN_PROGRAM_ID@) is Some,
    ensures
        r@ == program_address(associated_token_seeds(wallet@, mint@), ASSOCIATED_TOKEN_PROGRAM_ID@)->Some_0.0,
{
    spl_associated_token_account::get_associated_token_address(&(*wallet).into(), &(*mint).into()).to_bytes()
}

/// The vault address for `mint`: the associated token account of the
/// authority PDA, when both derivations find an address.
pub open spec fn vault_address(mint: Pubkey, program_id: Pubkey) -> Option<Seq<u8>> {
    match program_address(seq![PERP_AUTHORITY_SEED@], program_id@) {
        Some(authority) => match program_address(associated_token_seeds(authority.0, mint@), ASSOCIATED_TOKEN_PROGRAM_ID@) {
            Some(ata) => Some(ata.0),
            None => None,
        },
        None => None,
    }
}

/// The vault for `mint`: the ATA of the `perp_authority` PDA. `None` when
/// the authority PDA or the token account address cannot be derived.
pub fn find_collateral_vault_address(mint: &Pubkey, program_id: &Pubkey) -> (r: Option<Pubkey>)
    ensures
        match vault_address(*mint, *program_id) {
            Some(a) => r is Some && r->Some_0@ == a,
            None => r is None,
        },
{
    match find_perp_authority_address(program_id) {
        Some((authority, _bump)) => {
            // The token account derivation panics where no bump seed works:
            // look for one first.
            match find_associated_token_address(&authority, mint) {
                Some(_) => Some(get_associated_token_address(&authority, mint)),
                None => None,
            }
        },
        None => None,
    }
}

/// Same vault, seen as the token account the router trades from.
pub fn find_perp_token_account(mint: &Pubkey, program_id: &Pubkey) -> (r: Option<Pubkey>)
    ensures
        match vault_address(*mint, *program_id) {
            Some(a) => r is Some && r->Some_0@ == a,
            None => r is None,
        },
{
    find_collateral_vault_address(mint, program_id)
}

} // verus!
