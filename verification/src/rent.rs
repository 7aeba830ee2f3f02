//! The externally defined minimum balance that keeps a slot of a given size
//! alive on the ledger.

use vstd::prelude::*;

verus! {

/// The largest byte size the ledger permits for a slot's contents (10 MiB).
pub const MAX_SLOT_BYTES: u64 = 10 * 1024 * 1024;

/// Relies on `Rent::get` (solana-sysvar) and `Rent::try_minimum_balance`
/// (solana-rent): the rent sysvar is supplied by the surrounding ledger
/// runtime, so the value depends on the environment and nothing more can be
/// promised of it; the source returns `None` whenever `payload_len` exceeds
/// the maximum permitted size, when the sysvar is unavailable, or when the
/// configured rate would overflow the calculation.
#[verifier::external_body]
#[allow(deprecated)]
fn fetch_rent_minimum(payload_len: usize) -> (r: Option<u64>)
    ensures
        r is Some ==> payload_len as u64 <= MAX_SLOT_BYTES,
{
    match <solana_program::rent::Rent as solana_program::sysvar::Sysvar>::get() {
        Ok(rent) => rent.try_minimum_balance(payload_len),
        Err(_) => None,
    }
}

/// The minimum balance required to keep a slot of `payload_len` bytes alive,
/// read from the surrounding ledger runtime, or `None` when the runtime does
/// not supply it or the size exceeds what the ledger permits. The value
/// depends on the runtime's configuration, so every later stage takes it as
/// an explicit argument rather than re-reading it.
pub fn required_slot_balance(payload_len: usize) -> (r: Option<u64>)
    ensures
        r is Some ==> payload_len as u64 <= MAX_SLOT_BYTES,
{
    fetch_rent_minimum(payload_len)
}

} // verus!
