//! Data model: identities, the two accounts an invocation touches, the
//! slot's lifecycle status, and the error taxonomy.

use vstd::prelude::*;

verus! {

/// A 32-byte identity: a caller's public key or the program's own identity.
#[derive(Clone, Copy, PartialEq, Eq, Debug)]
pub struct Identity {
    pub bytes: [u8; 32],
}

impl View for Identity {
    type V = Seq<u8>;

    open spec fn view(&self) -> Seq<u8> {
        self.bytes@
    }
}

/// The caller's account as the invocation sees it: its held balance and
/// whether it proved control (signed) in this invocation.
#[derive(Clone, PartialEq, Eq, Debug)]
pub struct CallerAccount {
    pub lamports: u64,
    pub is_signer: bool,
}

/// The storage slot: its held balance and its byte contents.
#[derive(Clone, PartialEq, Eq, Debug)]
pub struct SlotAccount {
    pub lamports: u64,
    pub data: Vec<u8>,
}

/// Lifecycle status of the slot, decided once at the top of an invocation.
/// The ledger funds every real slot to at least the minimum balance at
/// creation, so a held balance of exactly zero means the slot does not exist.
#[derive(Clone, Copy, PartialEq, Eq, Structural, Debug)]
pub enum SlotStatus {
    Nonexistent,
    Existing,
}

/// The error taxonomy. Every error aborts the whole invocation; nothing is
/// retried or recovered locally.
#[derive(Clone, Copy, PartialEq, Eq, Structural, Debug)]
pub enum StorageError {
    /// The caller did not prove control in this invocation.
    MissingAuthorization,
    /// The caller's balance cannot cover a required funding transfer.
    InsufficientFunds,
    /// The ledger rejects creation of the slot.
    CreationFailure,
    /// The ledger rejects the requested size change.
    ResizeFailure,
}

/// The slot status determined by the held balance.
pub open spec fn spec_slot_status(slot: SlotAccount) -> SlotStatus {
    if slot.lamports == 0 {
        SlotStatus::Nonexistent
    } else {
        SlotStatus::Existing
    }
}

/// Decide once whether the slot already exists: a held balance of exactly
/// zero is the sentinel for "does not exist".
pub fn classify_slot(slot: &SlotAccount) -> (r: SlotStatus)
    ensures
        r == spec_slot_status(*slot),
{
    if slot.lamports == 0 {
        SlotStatus::Nonexistent
    } else {
        SlotStatus::Existing
    }
}

/// The mathematical state an invocation reads and rewrites: the caller's
/// balance and authorization, and the slot's balance and contents.
#[verifier::ext_equal]
pub ghost struct LedgerState {
    pub caller_lamports: int,
    pub caller_signed: bool,
    pub slot_lamports: int,
    pub slot_data: Seq<u8>,
}

/// The abstraction of the two concrete accounts.
pub open spec fn state_of(caller: CallerAccount, slot: SlotAccount) -> LedgerState {
    LedgerState {
        caller_lamports: caller.lamports as int,
        caller_signed: caller.is_signer,
        slot_lamports: slot.lamports as int,
        slot_data: slot.data@,
    }
}

} // verus!
