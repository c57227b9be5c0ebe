//! Derivation of the vault's program-derived address.
//!
//! The vault's address is not a keypair: it is computed deterministically
//! from the constant seed `b"vault"` and the program's identity, together
//! with a bump byte chosen so that the address falls off the signing curve.
//! The computation itself belongs to the host environment; the library names
//! its result and builds every contract on that name.

use vstd::prelude::*;
use crate::account::AccountId;

verus! {

/// What deriving the vault address from a program identity yields: the
/// 32-byte address and its bump byte, or nothing when no bump makes the
/// address fall off the curve. The result depends on the program identity
/// alone, so any two derivations for the same identity agree.
pub uninterp spec fn vault_derivation_of(program_id: Seq<u8>) -> Option<(Seq<u8>, u8)>;

/// Whether a vault address can be derived for this program identity.
pub open spec fn has_vault_key(program_id: Seq<u8>) -> bool {
    vault_derivation_of(program_id) is Some
}

/// The derived vault address, where one exists.
pub open spec fn spec_vault_key(program_id: Seq<u8>) -> Seq<u8> {
    match vault_derivation_of(program_id) {
        Option::Some(d) => d.0,
        Option::None => Seq::empty(),
    }
}

/// The bump byte of the derived vault address, where one exists.
pub open spec fn spec_vault_bump(program_id: Seq<u8>) -> u8 {
    match vault_derivation_of(program_id) {
        Option::Some(d) => d.1,
        Option::None => 0,
    }
}

/// Relies on `solana_program::pubkey::Pubkey::try_find_program_address` with
/// the single seed `b"vault"`: it returns the derived address and bump byte,
/// a pure function of the seed and the program identity, or `None` when no
/// bump byte yields an off-curve address.
#[verifier::external_body]
fn find_vault_address(program_id: &AccountId) -> (r: Option<(AccountId, u8)>)
    ensures
        match r {
            Option::Some(p) => vault_derivation_of(program_id@) == Option::Some((p.0@, p.1)),
            Option::None => vault_derivation_of(program_id@) is None,
        },
{
    let pid = solana_program::pubkey::Pubkey::new_from_array(program_id.bytes);
    match solana_program::pubkey::Pubkey::try_find_program_address(&[b"vault"], &pid) {
        Some((key, bump)) => Some((AccountId { bytes: key.to_bytes() }, bump)),
        None => None,
    }
}

/// Derives the vault's address and bump byte for a program identity.
///
/// Deterministic: every call for the same identity returns the value that
/// `vault_derivation_of` fixes, so any two calls agree.
pub fn vault_address(program_id: &AccountId) -> (r: Option<(AccountId, u8)>)
    ensures
        match r {
            Option::Some(p) => {
                &&& has_vault_key(program_id@)
                &&& p.0@ == spec_vault_key(program_id@)
                &&& p.1 == spec_vault_bump(program_id@)
            },
            Option::None => !has_vault_key(program_id@),
        },
{
    find_vault_address(program_id)
}

} // verus!
