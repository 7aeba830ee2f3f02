//! The account-lifecycle routine: ensure the storage slot exists, keep its
//! held balance exactly at the required minimum for its new size, and
//! overwrite its contents with the payload — all within one all-or-nothing
//! invocation.

use vstd::prelude::*;
use crate::model::{CallerAccount, LedgerState, SlotAccount, SlotStatus, StorageError, state_of};
use crate::model::classify_slot;
use crate::rent::MAX_SLOT_BYTES;

verus! {

/// What one invocation does to the ledger state it touches: reject an
/// unauthorized caller, reject a payload larger than the ledger permits,
/// reject a caller whose combined funds cannot reach the required minimum,
/// and otherwise leave the slot holding exactly the payload and exactly the
/// required balance, with the difference settled against the caller.
pub open spec fn step(s: LedgerState, payload: Seq<u8>, required: int) -> Result<LedgerState, StorageError> {
    if !s.caller_signed {
        Err(StorageError::MissingAuthorization)
    } else if payload.len() > MAX_SLOT_BYTES {
        if s.slot_lamports == 0 {
            Err(StorageError::CreationFailure)
        } else {
            Err(StorageError::ResizeFailure)
        }
    } else if s.caller_lamports + s.slot_lamports < required {
        Err(StorageError::InsufficientFunds)
    } else {
        Ok(LedgerState {
            caller_lamports: s.caller_lamports + s.slot_lamports - required,
            caller_signed: s.caller_signed,
            slot_lamports: required,
            slot_data: payload,
        })
    }
}

/// Create the slot: fund it from the caller to exactly `funding` and leave
/// its contents untouched (creation alone does not populate bytes).
fn create_slot(caller: &mut CallerAccount, slot: &mut SlotAccount, funding: u64) -> (r: Result<(), StorageError>)
    requires
        old(slot).lamports == 0,
    ensures
        final(caller).is_signer == old(caller).is_signer,
        final(slot).data@ == old(slot).data@,
        r is Ok <==> old(caller).lamports >= funding,
        r is Ok ==> final(caller).lamports == old(caller).lamports - funding
            && final(slot).lamports == funding,
        r is Err ==> r == Err::<(), StorageError>(StorageError::InsufficientFunds)
            && *final(caller) == *old(caller) && *final(slot) == *old(slot),
{
    if caller.lamports < funding {
        return Err(StorageError::InsufficientFunds);
    }
    caller.lamports = caller.lamports - funding;
    slot.lamports = funding;
    Ok(())
}

/// Compare the slot's held balance to the required minimum and move the
/// exact difference: the deficit from the caller to the slot, or the surplus
/// from the slot back to the caller; nothing when they are already equal.
fn reconcile_balances(caller: &mut CallerAccount, slot: &mut SlotAccount, required: u64) -> (r: Result<(), StorageError>)
    requires
        old(caller).lamports + old(slot).lamports <= u64::MAX,
    ensures
        final(caller).is_signer == old(caller).is_signer,
        final(slot).data@ == old(slot).data@,
        r is Ok <==> old(caller).lamports + old(slot).lamports >= required,
        r is Ok ==> final(slot).lamports == required
            && final(caller).lamports == old(caller).lamports + old(slot).lamports - required,
        r is Err ==> r == Err::<(), StorageError>(StorageError::InsufficientFunds)
            && *final(caller) == *old(caller) && *final(slot) == *old(slot),
{
    if slot.lamports < required {
        let deficit = required - slot.lamports;
        if caller.lamports < deficit {
            return Err(StorageError::InsufficientFunds);
        }
        caller.lamports = caller.lamports - deficit;
        slot.lamports = slot.lamports + deficit;
    } else if slot.lamports > required {
        let surplus = slot.lamports - required;
        caller.lamports = caller.lamports + surplus;
        slot.lamports = slot.lamports - surplus;
    }
    Ok(())
}

/// Resize the slot's byte storage to exactly the payload's length and
/// overwrite the whole region with the payload. No old byte survives.
fn write_payload(slot: &mut SlotAccount, payload: &Vec<u8>)
    ensures
        final(slot).lamports == old(slot).lamports,
        final(slot).data@ == payload@,
{
    slot.data.clear();
    let mut i: usize = 0;
    while i < payload.len()
        invariant
            i <= payload.len(),
            slot.data@ == payload@.subrange(0, i as int),
            slot.lamports == old(slot).lamports,
        decreases payload.len() - i,
    {
        let b = payload[i];
        slot.data.push(b);
        proof {
            assert(payload@.subrange(0, i + 1 as int)
                =~= payload@.subrange(0, i as int).push(payload@[i as int]));
        }
        i = i + 1;
    }
    proof {
        assert(slot.data@ =~= payload@);
    }
}

/// One whole invocation, on the state it touches: derive nothing here (the
/// address is already settled), but create the slot on first use, fund it,
/// settle its balance to exactly `required_balance`, and overwrite its
/// contents with the payload. `required_balance` is the ledger's minimum
/// balance for a slot of the payload's size, read beforehand. The call
/// either performs the whole transition described by [`step`] or leaves
/// both accounts exactly as they were.
pub fn process_instruction(
    caller: &mut CallerAccount,
    slot: &mut SlotAccount,
    payload: &Vec<u8>,
    required_balance: u64,
) -> (r: Result<(), StorageError>)
    requires
        old(caller).lamports + old(slot).lamports <= u64::MAX,
    ensures
        final(caller).is_signer == old(caller).is_signer,
        r is Ok <==> old(caller).is_signer
            && payload@.len() <= MAX_SLOT_BYTES
            && old(caller).lamports + old(slot).lamports >= required_balance,
        match r {
            Ok(()) => {
                &&& step(state_of(*old(caller), *old(slot)), payload@, required_balance as int)
                    == Ok::<LedgerState, StorageError>(state_of(*final(caller), *final(slot)))
                &&& final(slot).lamports == required_balance
                &&& final(slot).data@ == payload@
                &&& final(caller).lamports == old(caller).lamports + old(slot).lamports - required_balance
            },
            Err(e) => {
                &&& step(state_of(*old(caller), *old(slot)), payload@, required_balance as int)
                    == Err::<LedgerState, StorageError>(e)
                &&& *final(caller) == *old(caller)
                &&& *final(slot) == *old(slot)
            },
        },
{
    if !caller.is_signer {
        return Err(StorageError::MissingAuthorization);
    }
    let status = classify_slot(slot);
    if payload.len() as u64 > MAX_SLOT_BYTES {
        return match status {
            SlotStatus::Nonexistent => Err(StorageError::CreationFailure),
            SlotStatus::Existing => Err(StorageError::ResizeFailure),
        };
    }
    if matches!(status, SlotStatus::Nonexistent) {
        match create_slot(caller, slot, required_balance) {
            Ok(()) => {},
            Err(e) => {
                return Err(e);
            },
        }
        // Creation alone does not populate bytes: copy the payload in.
        write_payload(slot, payload);
    }
    match reconcile_balances(caller, slot, required_balance) {
        Ok(()) => {},
        Err(e) => {
            return Err(e);
        },
    }
    write_payload(slot, payload);
    proof {
        assert(state_of(*caller, *slot) =~= LedgerState {
            caller_lamports: old(caller).lamports + old(slot).lamports - required_balance,
            caller_signed: old(caller).is_signer,
            slot_lamports: required_balance as int,
            slot_data: payload@,
        });
    }
    Ok(())
}

/// The ledger-side actions one invocation asks for, decided up front from
/// what the invocation can observe. The caller of the library performs them
/// in order: create the slot (funded to the required balance and sized to
/// the payload) when `create_slot` holds, move `fund_lamports` from the
/// caller to the slot, move `refund_lamports` from the slot back to the
/// caller, then resize and overwrite the slot's contents with the payload.
#[derive(Clone, Copy, PartialEq, Eq, Structural, Debug)]
pub struct InvocationPlan {
    pub create_slot: bool,
    pub fund_lamports: u64,
    pub refund_lamports: u64,
}

/// The actions owed for a slot holding `slot_lamports` when the required
/// minimum is `required`: creation funds the slot exactly, so it owes no
/// further transfer; an existing slot owes the exact deficit or is owed the
/// exact surplus.
pub open spec fn plan_of(slot_lamports: u64, required: u64) -> InvocationPlan {
    if slot_lamports == 0 {
        InvocationPlan { create_slot: true, fund_lamports: 0, refund_lamports: 0 }
    } else if slot_lamports < required {
        InvocationPlan {
            create_slot: false,
            fund_lamports: (required - slot_lamports) as u64,
            refund_lamports: 0,
        }
    } else {
        InvocationPlan {
            create_slot: false,
            fund_lamports: 0,
            refund_lamports: (slot_lamports - required) as u64,
        }
    }
}

/// Decide the invocation's actions from what it observes: whether the caller
/// proved control, the slot's current held balance, the payload's size, and
/// the required minimum balance for that size. An unauthorized caller and an
/// impermissible size are rejected here; whether the caller can actually
/// fund a deficit is for the ledger to enforce when the transfer runs.
pub fn plan_invocation(
    caller_is_signer: bool,
    slot_lamports: u64,
    payload_len: usize,
    required_balance: u64,
) -> (r: Result<InvocationPlan, StorageError>)
    ensures
        r is Ok <==> caller_is_signer && payload_len as u64 <= MAX_SLOT_BYTES,
        match r {
            Ok(plan) => plan == plan_of(slot_lamports, required_balance),
            Err(e) => if !caller_is_signer {
                e == StorageError::MissingAuthorization
            } else if slot_lamports == 0 {
                e == StorageError::CreationFailure
            } else {
                e == StorageError::ResizeFailure
            },
        },
{
    if !caller_is_signer {
        return Err(StorageError::MissingAuthorization);
    }
    if payload_len as u64 > MAX_SLOT_BYTES {
        if slot_lamports == 0 {
            return Err(StorageError::CreationFailure);
        } else {
            return Err(StorageError::ResizeFailure);
        }
    }
    if slot_lamports == 0 {
        Ok(InvocationPlan { create_slot: true, fund_lamports: 0, refund_lamports: 0 })
    } else if slot_lamports < required_balance {
        Ok(InvocationPlan {
            create_slot: false,
            fund_lamports: required_balance - slot_lamports,
            refund_lamports: 0,
        })
    } else {
        Ok(InvocationPlan {
            create_slot: false,
            fund_lamports: 0,
            refund_lamports: slot_lamports - required_balance,
        })
    }
}

/// How the ledger applies a plan's actions to the state, in order: creation
/// funds the slot from the caller to exactly the required minimum; then the
/// planned deficit moves from the caller to the slot and the planned surplus
/// moves back; finally the contents are resized and overwritten.
pub open spec fn apply_plan(
    s: LedgerState,
    plan: InvocationPlan,
    payload: Seq<u8>,
    required: int,
) -> LedgerState {
    let created = if plan.create_slot {
        LedgerState { caller_lamports: s.caller_lamports - required, slot_lamports: required, ..s }
    } else {
        s
    };
    LedgerState {
        caller_lamports: created.caller_lamports - plan.fund_lamports + plan.refund_lamports,
        caller_signed: created.caller_signed,
        slot_lamports: created.slot_lamports + plan.fund_lamports - plan.refund_lamports,
        slot_data: payload,
    }
}

/// The planner agrees with the verified transition: for an authorized
/// caller, a permitted payload size and sufficient combined funds, applying
/// the planned actions yields exactly the successful transition's state.
pub proof fn lemma_plan_matches_step(
    s: LedgerState,
    payload: Seq<u8>,
    slot_lamports: u64,
    required: u64,
)
    requires
        s.caller_signed,
        payload.len() <= MAX_SLOT_BYTES,
        s.slot_lamports == slot_lamports,
        s.caller_lamports + s.slot_lamports >= required,
    ensures
        step(s, payload, required as int) == Ok::<LedgerState, StorageError>(
            apply_plan(s, plan_of(slot_lamports, required), payload, required as int),
        ),
{
    assert(step(s, payload, required as int)->Ok_0
        =~= apply_plan(s, plan_of(slot_lamports, required), payload, required as int));
}

/// Idempotent convergence: whatever two payloads a caller writes in
/// sequence, after the second successful invocation the slot's contents
/// equal the second payload and its length equals that payload's length,
/// regardless of how the two payloads' lengths compare.
pub proof fn lemma_idempotent_convergence(
    s0: LedgerState,
    payload1: Seq<u8>,
    required1: int,
    s1: LedgerState,
    payload2: Seq<u8>,
    required2: int,
    s2: LedgerState,
)
    requires
        step(s0, payload1, required1) == Ok::<LedgerState, StorageError>(s1),
        step(s1, payload2, required2) == Ok::<LedgerState, StorageError>(s2),
    ensures
        s2.slot_data == payload2,
        s2.slot_data.len() == payload2.len(),
{
}

/// Balance invariant: after every successful invocation the slot holds
/// exactly the required minimum balance for the new payload's size — never
/// above, never below — and exactly the new payload.
pub proof fn lemma_balance_invariant(
    s: LedgerState,
    payload: Seq<u8>,
    required: int,
    s_post: LedgerState,
)
    requires
        step(s, payload, required) == Ok::<LedgerState, StorageError>(s_post),
    ensures
        s_post.slot_lamports == required,
        s_post.slot_data == payload,
{
}

/// Unauthorized rejection: an invocation whose caller did not prove control
/// fails with `MissingAuthorization`, whatever the payload and balances are.
/// The executable routine further guarantees that a failed invocation leaves
/// both accounts exactly as they were.
pub proof fn lemma_unauthorized_rejection(s: LedgerState, payload: Seq<u8>, required: int)
    requires
        !s.caller_signed,
    ensures
        step(s, payload, required) == Err::<LedgerState, StorageError>(StorageError::MissingAuthorization),
{
}

} // verus!
