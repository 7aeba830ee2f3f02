use pda_storage::derivation::derive_slot_address;
use pda_storage::model::{classify_slot, CallerAccount, Identity, SlotAccount, SlotStatus, StorageError};
use pda_storage::process::{plan_invocation, process_instruction, InvocationPlan};
use pda_storage::rent::required_slot_balance;
use solana_program::pubkey::Pubkey;
use solana_program::rent::Rent;

fn identity(fill: u8) -> Identity {
    Identity { bytes: [fill; 32] }
}

/// A deterministic stream of identities for sampling.
fn pseudo_random_identity(seed: u64) -> Identity {
    let mut state: u64 = seed.wrapping_mul(6364136223846793005).wrapping_add(1442695040888963407);
    let mut bytes = [0u8; 32];
    for b in bytes.iter_mut() {
        state = state.wrapping_mul(6364136223846793005).wrapping_add(1442695040888963407);
        *b = (state >> 56) as u8;
    }
    Identity { bytes }
}

fn rent_minimum(len: usize) -> u64 {
    Rent::default().try_minimum_balance(len).unwrap()
}

#[test]
fn derive_same_inputs_same_address() {
    let caller = identity(3);
    let program = identity(250);
    let first = derive_slot_address(&caller, &program).unwrap();
    let second = derive_slot_address(&caller, &program).unwrap();
    assert_eq!(first.address, second.address);
    assert_eq!(first.bump, second.bump);
}

#[test]
fn derive_matches_ledger_search() {
    let caller = identity(11);
    let program = identity(42);
    let derived = derive_slot_address(&caller, &program).unwrap();
    let caller_key = Pubkey::new_from_array(caller.bytes);
    let program_key = Pubkey::new_from_array(program.bytes);
    let (expected, expected_bump) =
        Pubkey::find_program_address(&[caller_key.as_ref()], &program_key);
    assert_eq!(derived.address.bytes, expected.to_bytes());
    assert_eq!(derived.bump, expected_bump);
    assert_ne!(derived.address.bytes, caller.bytes);
    assert_ne!(derived.address.bytes, program.bytes);
}

#[test]
fn derive_distinct_callers_distinct_addresses() {
    let program = identity(9);
    let mut addresses: Vec<[u8; 32]> = Vec::new();
    for seed in 0..100u64 {
        let caller = pseudo_random_identity(seed);
        let derived = derive_slot_address(&caller, &program).unwrap();
        assert!(
            !addresses.contains(&derived.address.bytes),
            "two callers derived the same slot address"
        );
        addresses.push(derived.address.bytes);
    }
}

#[test]
fn scenario_hello_then_hi() {
    let start_lamports: u64 = 1_000_000_000;
    let mut caller = CallerAccount { lamports: start_lamports, is_signer: true };
    let mut slot = SlotAccount { lamports: 0, data: Vec::new() };

    let hello = b"Hello Solana".to_vec();
    assert_eq!(hello.len(), 12);
    let min_hello = rent_minimum(hello.len());
    let r = process_instruction(&mut caller, &mut slot, &hello, min_hello);
    assert_eq!(r, Ok(()));
    assert_eq!(slot.lamports, min_hello);
    assert_eq!(slot.data, hello);
    assert_eq!(caller.lamports, start_lamports - min_hello);

    let hi = b"Hi".to_vec();
    assert_eq!(hi.len(), 2);
    let min_hi = rent_minimum(hi.len());
    assert!(min_hi < min_hello);
    let r = process_instruction(&mut caller, &mut slot, &hi, min_hi);
    assert_eq!(r, Ok(()));
    assert_eq!(slot.data.len(), 2);
    assert_eq!(slot.data, hi);
    assert_eq!(slot.lamports, min_hi);
    // The surplus above the minimum for the new, smaller size came back.
    assert_eq!(caller.lamports, start_lamports - min_hello + (min_hello - min_hi));
}

#[test]
fn idempotent_convergence_both_directions() {
    let mut caller = CallerAccount { lamports: 1_000_000, is_signer: true };
    let mut slot = SlotAccount { lamports: 0, data: Vec::new() };
    let long = vec![1u8; 300];
    let short = vec![2u8; 3];

    assert_eq!(process_instruction(&mut caller, &mut slot, &long, 5_000), Ok(()));
    assert_eq!(process_instruction(&mut caller, &mut slot, &short, 900), Ok(()));
    assert_eq!(slot.data, short);
    assert_eq!(slot.data.len(), 3);

    assert_eq!(process_instruction(&mut caller, &mut slot, &long, 5_000), Ok(()));
    assert_eq!(slot.data, long);
    assert_eq!(slot.data.len(), 300);
}

#[test]
fn balance_settles_exactly_without_transfer_when_equal() {
    let mut caller = CallerAccount { lamports: 700, is_signer: true };
    let mut slot = SlotAccount { lamports: 300, data: vec![5u8; 4] };
    let payload = vec![6u8; 4];
    let r = process_instruction(&mut caller, &mut slot, &payload, 300);
    assert_eq!(r, Ok(()));
    assert_eq!(slot.lamports, 300);
    assert_eq!(caller.lamports, 700);
    assert_eq!(slot.data, payload);
}

#[test]
fn deficit_moves_from_caller_to_slot() {
    let mut caller = CallerAccount { lamports: 1_000, is_signer: true };
    let mut slot = SlotAccount { lamports: 100, data: vec![1u8] };
    let payload = vec![1u8, 2, 3];
    let r = process_instruction(&mut caller, &mut slot, &payload, 450);
    assert_eq!(r, Ok(()));
    assert_eq!(slot.lamports, 450);
    assert_eq!(caller.lamports, 650);
}

#[test]
fn unauthorized_rejected_and_nothing_changes() {
    let mut caller = CallerAccount { lamports: 1_000, is_signer: false };
    let mut slot = SlotAccount { lamports: 300, data: vec![9u8, 9, 9] };
    let caller_before = caller.clone();
    let slot_before = slot.clone();
    let payload = vec![1u8, 2];
    let r = process_instruction(&mut caller, &mut slot, &payload, 450);
    assert_eq!(r, Err(StorageError::MissingAuthorization));
    assert_eq!(caller, caller_before);
    assert_eq!(slot, slot_before);
}

#[test]
fn insufficient_funds_on_creation() {
    let mut caller = CallerAccount { lamports: 5, is_signer: true };
    let mut slot = SlotAccount { lamports: 0, data: Vec::new() };
    let caller_before = caller.clone();
    let slot_before = slot.clone();
    let payload = vec![1u8];
    let r = process_instruction(&mut caller, &mut slot, &payload, 100);
    assert_eq!(r, Err(StorageError::InsufficientFunds));
    assert_eq!(caller, caller_before);
    assert_eq!(slot, slot_before);
}

#[test]
fn insufficient_funds_on_deficit() {
    let mut caller = CallerAccount { lamports: 10, is_signer: true };
    let mut slot = SlotAccount { lamports: 50, data: vec![0u8; 2] };
    let payload = vec![0u8; 64];
    let r = process_instruction(&mut caller, &mut slot, &payload, 100);
    assert_eq!(r, Err(StorageError::InsufficientFunds));
    assert_eq!(caller.lamports, 10);
    assert_eq!(slot.lamports, 50);
    assert_eq!(slot.data.len(), 2);
}

#[test]
fn oversize_payload_rejected() {
    let oversize = vec![0u8; 10 * 1024 * 1024 + 1];
    let mut caller = CallerAccount { lamports: u64::MAX / 2, is_signer: true };

    let mut empty_slot = SlotAccount { lamports: 0, data: Vec::new() };
    let r = process_instruction(&mut caller, &mut empty_slot, &oversize, 1_000);
    assert_eq!(r, Err(StorageError::CreationFailure));
    assert_eq!(empty_slot.lamports, 0);

    let mut real_slot = SlotAccount { lamports: 500, data: vec![1u8, 2] };
    let r = process_instruction(&mut caller, &mut real_slot, &oversize, 1_000);
    assert_eq!(r, Err(StorageError::ResizeFailure));
    assert_eq!(real_slot.data, vec![1u8, 2]);
}

#[test]
fn classify_uses_zero_balance_sentinel() {
    let empty = SlotAccount { lamports: 0, data: vec![1u8, 2, 3] };
    assert_eq!(classify_slot(&empty), SlotStatus::Nonexistent);
    let real = SlotAccount { lamports: 1, data: Vec::new() };
    assert_eq!(classify_slot(&real), SlotStatus::Existing);
}

#[test]
fn plan_for_creation() {
    let plan = plan_invocation(true, 0, 12, 900).unwrap();
    assert_eq!(
        plan,
        InvocationPlan { create_slot: true, fund_lamports: 0, refund_lamports: 0 }
    );
}

#[test]
fn plan_for_deficit() {
    let plan = plan_invocation(true, 250, 12, 900).unwrap();
    assert_eq!(
        plan,
        InvocationPlan { create_slot: false, fund_lamports: 650, refund_lamports: 0 }
    );
}

#[test]
fn plan_for_surplus() {
    let plan = plan_invocation(true, 1_400, 2, 900).unwrap();
    assert_eq!(
        plan,
        InvocationPlan { create_slot: false, fund_lamports: 0, refund_lamports: 500 }
    );
}

#[test]
fn plan_for_equal_balance() {
    let plan = plan_invocation(true, 900, 2, 900).unwrap();
    assert_eq!(
        plan,
        InvocationPlan { create_slot: false, fund_lamports: 0, refund_lamports: 0 }
    );
}

#[test]
fn plan_rejects_unauthorized_caller() {
    let r = plan_invocation(false, 0, 12, 900);
    assert_eq!(r, Err(StorageError::MissingAuthorization));
}

#[test]
fn plan_rejects_oversize_payload() {
    let oversize = 10 * 1024 * 1024 + 1;
    assert_eq!(plan_invocation(true, 0, oversize, 900), Err(StorageError::CreationFailure));
    assert_eq!(plan_invocation(true, 77, oversize, 900), Err(StorageError::ResizeFailure));
}

#[test]
fn required_balance_outside_ledger_runtime() {
    // The rent sysvar is supplied only by the surrounding ledger runtime.
    assert_eq!(required_slot_balance(12), None);
    // A size above the permitted maximum never has a minimum balance.
    assert_eq!(required_slot_balance(10 * 1024 * 1024 + 1), None);
}
