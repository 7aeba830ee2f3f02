//! Deterministic derivation of the storage slot's address.
//!
//! The address is a function of the caller's identity and the program's
//! identity alone. The search also yields a small disambiguator byte that
//! makes the address invalid as a public key; together with the caller's
//! identity bytes it forms the derived signing authority that the ledger
//! accepts, in place of a signature, when it can re-derive the same address.

use vstd::prelude::*;
use crate::model::Identity;

verus! {

/// What the ledger's address-derivation search returns for a caller identity
/// and a program identity: the derived address bytes and the disambiguator,
/// or nothing in the (practically impossible) case that the search space is
/// exhausted. The result is a function of the two identities alone.
pub uninterp spec fn pda_of(caller: Seq<u8>, program: Seq<u8>) -> Option<(Seq<u8>, u8)>;

/// Relies on `Pubkey::try_find_program_address` (solana-pubkey): the returned
/// address and bump seed are computed by hashing the seed bytes and the
/// program identity with successive bump bytes until the result falls off the
/// ed25519 curve — a deterministic function of the two identities alone, with
/// `None` only when no bump byte works. The returned address is 32 bytes.
#[verifier::external_body]
fn find_slot_address(caller: &Identity, program: &Identity) -> (r: Option<(Identity, u8)>)
    ensures
        r is Some <==> pda_of(caller@, program@) is Some,
        r matches Some(d) ==> pda_of(caller@, program@) == Some((d.0@, d.1)),
{
    let caller_key = solana_program::pubkey::Pubkey::new_from_array(caller.bytes);
    let program_key = solana_program::pubkey::Pubkey::new_from_array(program.bytes);
    match solana_program::pubkey::Pubkey::try_find_program_address(&[caller_key.as_ref()], &program_key) {
        Some((address, bump)) => Some((Identity { bytes: address.to_bytes() }, bump)),
        None => None,
    }
}

/// The derived storage address together with its disambiguator. The
/// disambiguator, combined with the caller's identity bytes, is the derived
/// signing authority for creating the slot.
#[derive(Clone, Copy, PartialEq, Eq, Debug)]
pub struct SlotDerivation {
    pub address: Identity,
    pub bump: u8,
}

/// Derive the storage slot's address and disambiguator from the caller's
/// identity and the program's identity. The result is pinned to a function
/// of the two identities, so the same pair always derives the same address.
pub fn derive_slot_address(caller: &Identity, program: &Identity) -> (r: Option<SlotDerivation>)
    ensures
        r is Some <==> pda_of(caller@, program@) is Some,
        r matches Some(d) ==> pda_of(caller@, program@) == Some((d.address@, d.bump)),
{
    match find_slot_address(caller, program) {
        Some((address, bump)) => Some(SlotDerivation { address, bump }),
        None => None,
    }
}

/// Determinism of the derivation: equal caller and program identities always
/// derive the same address and disambiguator, however often the derivation
/// is repeated.
pub proof fn lemma_derivation_deterministic(
    caller1: Seq<u8>,
    program1: Seq<u8>,
    caller2: Seq<u8>,
    program2: Seq<u8>,
)
    requires
        caller1 == caller2,
        program1 == program2,
    ensures
        pda_of(caller1, program1) == pda_of(caller2, program2),
{
}

} // verus!
