use anchor_lang::prelude::Pubkey;
use vstd::prelude::*;

use crate::account::{lemma_view_injective, AccountId};

verus! {

/// The program-derived address of the seeds `[seed, [nonce]]` under `program_id`, or `None`
/// when that derivation lands on the ed25519 curve and so yields no address.
pub uninterp spec fn derived_address(seed: Seq<u8>, nonce: u8, program_id: Seq<u8>) -> Option<Seq<u8>>;

/// Relies on `Pubkey::create_program_address` (anchor_lang's Solana pubkey module): it hashes the
/// seeds with the program id and rejects a hash that is a curve point; the result depends on
/// its arguments alone. Two seeds of at most 32 bytes stay under its length limits.
#[verifier::external_body]
fn create_program_address(seed: &AccountId, nonce: u8, program_id: &AccountId) -> (r: Option<AccountId>)
    ensures
        match r {
            Some(k) => derived_address(seed@, nonce, program_id@) == Some(k@),
            None => derived_address(seed@, nonce, program_id@) is None,
        },
{
    let bump = [nonce];
    let program = Pubkey::new_from_array(program_id.bytes);
    match Pubkey::create_program_address(&[&seed.bytes[..], &bump[..]], &program) {
        Ok(k) => Some(AccountId { bytes: k.to_bytes() }),
        Err(_) => None,
    }
}

/// Whether `claimed` is the vault authority derived from `(seed, nonce)` under `program_id`.
pub fn verify_vault_authority(claimed: &AccountId, seed: &AccountId, nonce: u8, program_id: &AccountId) -> (r: bool)
    ensures
        r == (derived_address(seed@, nonce, program_id@) == Some(claimed@)),
{
    match create_program_address(seed, nonce, program_id) {
        Some(k) => {
            proof {
                lemma_view_injective(k, *claimed);
            }
            k.same(claimed)
        },
        None => false,
    }
}

} // verus!
