//! Deterministic per-caller byte storage.
//!
//! A caller persists an arbitrary byte payload under a storage slot whose
//! address is derived deterministically from the caller's own identity and
//! the program's identity. The slot is created on first use with a derived
//! signing authority instead of a private key, its held balance is kept
//! exactly at the minimum the ledger demands for its size, and its contents
//! are resized and overwritten on every call.

pub mod model;
pub mod derivation;
pub mod rent;
pub mod process;
