//! Deterministic derivation of a record address from an administrator
//! identity.
//!
//! The derivation itself is the storage collaborator's: it hashes the fixed
//! seed `"state"`, the administrator identity and the program identity. Its
//! result is named here and taken on trust; everything built on it is
//! verified against that name.

use vstd::prelude::*;

verus! {

/// The record address that the storage collaborator derives for a program
/// identity and an administrator identity, from the fixed seed `"state"`.
/// `None` in the statistically improbable case that no address can be
/// derived. The result depends on the two identities alone.
pub uninterp spec fn state_address_of(program_id: Seq<u8>, admin: Seq<u8>) -> Option<Seq<u8>>;

/// Relies on `Pubkey::try_find_program_address` of solana-program: the
/// derived address is computed by hashing the seeds and the program
/// identity, so it is a function of the two identities alone, and `None`
/// comes only when no bump seed yields a valid address.
#[verifier::external_body]
pub(crate) fn derive_record_address(program_id: &[u8; 32], admin: &[u8; 32]) -> (r: Option<
    [u8; 32],
>)
    ensures
        match r {
            Some(pda) => state_address_of(program_id@, admin@) == Some(pda@),
            None => state_address_of(program_id@, admin@) is None,
        },
{
    let program = solana_program::pubkey::Pubkey::new_from_array(*program_id);
    solana_program::pubkey::Pubkey::try_find_program_address(&[b"state", admin], &program)
        .map(|(address, _bump)| address.to_bytes())
}

} // verus!
