use x402_gateway::payload::PAY_AUTHORIZED_DATA_LEN;
use x402_gateway::state::STATE_SIZE;
use x402_gateway::{
    process_initialize, process_instruction, process_pay_authorized, process_set_smt_root,
    AccountHandle, GatewayError, GatewayEffect,
};

fn handle(key: [u8; 32], is_signer: bool) -> AccountHandle {
    AccountHandle { key, is_signer }
}

fn derived_state_key(program_id: &[u8; 32], admin: &[u8; 32]) -> [u8; 32] {
    let program = solana_program::pubkey::Pubkey::new_from_array(*program_id);
    solana_program::pubkey::Pubkey::find_program_address(&[b"state", admin], &program)
        .0
        .to_bytes()
}

const DISCRIMINATOR: [u8; 8] = [0x78, 0x34, 0x30, 0x32, 0x5f, 0x73, 0x6d, 0x74];

fn record(admin: &[u8; 32], root: &[u8; 32], verifier: &[u8; 32]) -> Vec<u8> {
    let mut rec = Vec::new();
    rec.extend_from_slice(&DISCRIMINATOR);
    rec.extend_from_slice(admin);
    rec.extend_from_slice(root);
    rec.extend_from_slice(verifier);
    rec
}

fn payload(amount: u64, expiry: u64, proof_byte: u8, witness_root: &[u8; 32]) -> Vec<u8> {
    let mut d = vec![0u8; PAY_AUTHORIZED_DATA_LEN];
    d[32..40].copy_from_slice(&amount.to_le_bytes());
    d[40..48].copy_from_slice(&expiry.to_le_bytes());
    for b in d[48..436].iter_mut() {
        *b = proof_byte;
    }
    d[448..480].copy_from_slice(witness_root);
    d
}

fn pay_accounts(payer_signs: bool, verifier_key: [u8; 32]) -> [AccountHandle; 5] {
    [
        handle([2u8; 32], payer_signs),
        handle([3u8; 32], false),
        handle([4u8; 32], false),
        handle(verifier_key, false),
        handle([6u8; 32], false),
    ]
}

#[test]
fn dispatcher_rejects_empty_payload() {
    let program_id = [1u8; 32];
    let mut state_data: Vec<u8> = Vec::new();
    let err = process_instruction(&program_id, &[], &mut state_data, &[], 0).unwrap_err();
    assert_eq!(err, GatewayError::InvalidInstructionData);
}

#[test]
fn dispatcher_rejects_unknown_tag() {
    let program_id = [1u8; 32];
    let mut state_data: Vec<u8> = Vec::new();
    let err = process_instruction(&program_id, &[], &mut state_data, &[3u8, 0, 0], 0).unwrap_err();
    assert_eq!(err, GatewayError::InvalidInstructionData);
}

#[test]
fn initialize_creates_record_at_derived_address() {
    let program_id = [1u8; 32];
    let admin_key = [2u8; 32];
    let verifier_id = [9u8; 32];
    let admin = handle(admin_key, true);
    let state = handle(derived_state_key(&program_id, &admin_key), false);
    let system = handle([4u8; 32], false);

    let rec = process_initialize(&program_id, &[admin, state, system], &verifier_id).unwrap();
    assert_eq!(rec.len(), STATE_SIZE);
    assert_eq!(&rec[0..8], &DISCRIMINATOR);
    assert_eq!(&rec[8..40], &admin_key);
    assert_eq!(&rec[40..72], &[0u8; 32]);
    assert_eq!(&rec[72..104], &verifier_id);
}

#[test]
fn initialize_rejects_admin_key_as_record_address() {
    let program_id = [1u8; 32];
    let admin_key = [2u8; 32];
    let admin = handle(admin_key, true);
    let state = handle(admin_key, false);
    let system = handle([4u8; 32], false);

    let err = process_initialize(&program_id, &[admin, state, system], &[0u8; 32]).unwrap_err();
    assert_eq!(err, GatewayError::InvalidStatePda);
}

#[test]
fn derived_addresses_differ_for_distinct_admins() {
    let program_id = [1u8; 32];
    let a1 = derived_state_key(&program_id, &[2u8; 32]);
    let a2 = derived_state_key(&program_id, &[3u8; 32]);
    assert_ne!(a1, a2);
    // And the derivation is repeatable.
    assert_eq!(a1, derived_state_key(&program_id, &[2u8; 32]));
}

#[test]
fn initialize_rejects_missing_accounts() {
    let program_id = [1u8; 32];
    let admin = handle([2u8; 32], true);
    let err = process_initialize(&program_id, &[admin], &[0u8; 32]).unwrap_err();
    assert_eq!(err, GatewayError::NotEnoughAccountKeys);
}

#[test]
fn set_root_rotates_only_the_root() {
    let program_id = [1u8; 32];
    let admin_key = [2u8; 32];
    let verifier_id = [9u8; 32];
    let admin = handle(admin_key, true);
    let state = handle(derived_state_key(&program_id, &admin_key), false);
    let old_root = [0x55u8; 32];
    let new_root = [0xabu8; 32];
    let mut state_data = record(&admin_key, &old_root, &verifier_id);

    process_set_smt_root(&program_id, &[admin, state], &mut state_data, &new_root).unwrap();
    assert_eq!(state_data, record(&admin_key, &new_root, &verifier_id));
}

#[test]
fn set_root_rejects_corrupt_record() {
    let program_id = [1u8; 32];
    let admin_key = [2u8; 32];
    let admin = handle(admin_key, true);
    let state = handle(derived_state_key(&program_id, &admin_key), false);
    let mut state_data = vec![0u8; STATE_SIZE];
    let before = state_data.clone();

    let err = process_set_smt_root(&program_id, &[admin, state], &mut state_data, &[7u8; 32])
        .unwrap_err();
    assert_eq!(err, GatewayError::InvalidStateAccount);
    assert_eq!(state_data, before);
}

#[test]
fn pay_rejects_corrupt_record() {
    let accounts = pay_accounts(true, [9u8; 32]);
    let state_data = vec![0u8; STATE_SIZE];
    let data = payload(1, 100, 0, &[0u8; 32]);
    let err = process_pay_authorized(&accounts, &state_data, &data, 0).unwrap_err();
    assert_eq!(err, GatewayError::InvalidStateAccount);
}

#[test]
fn pay_rejects_missing_accounts() {
    let data = payload(1, 100, 0, &[0u8; 32]);
    let err = process_pay_authorized(&[], &[], &data, 0).unwrap_err();
    assert_eq!(err, GatewayError::NotEnoughAccountKeys);
}

#[test]
fn pay_expiry_is_strict_and_inclusive() {
    let root = [0x11u8; 32];
    let verifier_id = [9u8; 32];
    let accounts = pay_accounts(true, verifier_id);
    let state_data = record(&[2u8; 32], &root, &verifier_id);
    let data = payload(7, 100, 0x33, &root);

    let err = process_pay_authorized(&accounts, &state_data, &data, 101).unwrap_err();
    assert_eq!(err, GatewayError::AuthorizationExpired);
    // The boundary instant is still valid.
    assert!(process_pay_authorized(&accounts, &state_data, &data, 100).is_ok());
    assert!(process_pay_authorized(&accounts, &state_data, &data, 99).is_ok());
}

#[test]
fn pay_expiry_field_is_unsigned() {
    let root = [0x11u8; 32];
    let other_root = [0x22u8; 32];
    let verifier_id = [9u8; 32];
    let accounts = pay_accounts(true, verifier_id);
    let state_data = record(&[2u8; 32], &root, &verifier_id);
    // The expiry field is a plain unsigned value: no clock reading exceeds
    // the largest one, so the authorization is valid even above the signed
    // maximum.
    let data = payload(7, u64::MAX, 0x33, &root);
    assert!(process_pay_authorized(&accounts, &state_data, &data, 0).is_ok());
    assert!(process_pay_authorized(&accounts, &state_data, &data, i64::MAX).is_ok());
    // A negative clock never exceeds an unsigned expiry.
    let data = payload(7, 0, 0x33, &root);
    assert!(process_pay_authorized(&accounts, &state_data, &data, -5).is_ok());
    // With an unexpired far-future authorization, the pipeline reaches the
    // commitment check.
    let data = payload(7, u64::MAX, 0x33, &other_root);
    let err = process_pay_authorized(&accounts, &state_data, &data, 0).unwrap_err();
    assert_eq!(err, GatewayError::SmtRootMismatch);
}

#[test]
fn pay_commitment_check_is_independent_of_proof() {
    let stored_root = [0x11u8; 32];
    let other_root = [0x22u8; 32];
    let verifier_id = [9u8; 32];
    let accounts = pay_accounts(true, verifier_id);
    let state_data = record(&[2u8; 32], &stored_root, &verifier_id);

    // A mismatched embedded root fails whatever the proof bytes hold.
    for proof_byte in [0u8, 0x77u8] {
        let data = payload(7, 100, proof_byte, &other_root);
        let err = process_pay_authorized(&accounts, &state_data, &data, 0).unwrap_err();
        assert_eq!(err, GatewayError::SmtRootMismatch);
    }
    // A matching embedded root passes the check whatever the proof bytes hold.
    for proof_byte in [0u8, 0x77u8] {
        let data = payload(7, 100, proof_byte, &stored_root);
        assert!(process_pay_authorized(&accounts, &state_data, &data, 0).is_ok());
    }
}

#[test]
fn pay_directive_carries_amount_and_verifier_input() {
    let root = [0x11u8; 32];
    let verifier_id = [9u8; 32];
    let accounts = pay_accounts(true, verifier_id);
    let state_data = record(&[2u8; 32], &root, &verifier_id);
    let data = payload(123_456_789, 1_000, 0x33, &root);

    let directive = process_pay_authorized(&accounts, &state_data, &data, 500).unwrap();
    assert_eq!(directive.amount, 123_456_789);
    assert_eq!(directive.verifier_input.len(), 464);
    assert_eq!(&directive.verifier_input[..], &data[48..512]);
}

#[test]
fn end_to_end_rotation_gates_witness() {
    let program_id = [1u8; 32];
    let admin_key = [2u8; 32];
    let verifier_id = [9u8; 32];
    let admin = handle(admin_key, true);
    let state = handle(derived_state_key(&program_id, &admin_key), false);
    let system = handle([4u8; 32], false);
    let admin_accounts = [admin, state, system];

    // Initialize with verifier V; the fresh record has a zeroed root.
    let mut instr = vec![0u8];
    instr.extend_from_slice(&verifier_id);
    let mut ignored: Vec<u8> = Vec::new();
    let effect =
        process_instruction(&program_id, &admin_accounts, &mut ignored, &instr, 0).unwrap();
    let mut state_data = match effect {
        GatewayEffect::RecordCreated(rec) => rec,
        _ => panic!("expected a record"),
    };

    // Rotate the root.
    let new_root = [0xabu8; 32];
    let mut instr = vec![1u8];
    instr.extend_from_slice(&new_root);
    let effect =
        process_instruction(&program_id, &admin_accounts, &mut state_data, &instr, 0).unwrap();
    assert!(matches!(effect, GatewayEffect::RootRotated));
    assert_eq!(&state_data[40..72], &new_root);
    assert_eq!(&state_data[72..104], &verifier_id);

    // A witness embedding the pre-rotation root must now be rejected.
    let accounts = pay_accounts(true, verifier_id);
    let stale = payload(5, 100, 0x33, &[0u8; 32]);
    let mut instr = vec![2u8];
    instr.extend_from_slice(&stale);
    let err = process_instruction(&program_id, &accounts, &mut state_data, &instr, 100)
        .unwrap_err();
    assert_eq!(err, GatewayError::SmtRootMismatch);

    // One embedding the rotated root passes the commitment check, and the
    // verifier receives exactly the 464-byte proof-witness concatenation.
    let fresh = payload(5, 100, 0x33, &new_root);
    let mut instr = vec![2u8];
    instr.extend_from_slice(&fresh);
    let effect =
        process_instruction(&program_id, &accounts, &mut state_data, &instr, 100).unwrap();
    match effect {
        GatewayEffect::PaymentAuthorized(directive) => {
            assert_eq!(directive.amount, 5);
            assert_eq!(&directive.verifier_input[..], &fresh[48..512]);
        }
        _ => panic!("expected a payment directive"),
    }
}
