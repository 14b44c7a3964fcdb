//! The operation dispatcher and the three handlers.
//!
//! Each handler is a pure decision over plain values: the account handles,
//! the record bytes, the operation body and (for payments) the clock
//! reading. A handler returns the effect the host must apply — the record
//! image to store, the rotated record, or a payment directive — or the
//! error that aborts the invocation. The full transition of each handler is
//! stated by a spec function, and the executable code is proved equal to it.

use vstd::prelude::*;

use crate::bytes::{bytes_eq, push_bytes};
use crate::derive::{derive_record_address, state_address_of};
use crate::error::GatewayError;
use crate::instruction;
use crate::payload::{
    authorization_expired, payload_amount, payload_auth_expiry, payload_proof, payload_witness,
    payload_witness_root, PAY_AUTHORIZED_DATA_LEN,
};
use crate::state::{
    record_bytes, record_is_well_formed, record_smt_root, record_verifier_identity, build_record,
    state_discriminator_bytes, zero_root, STATE_SIZE,
};

verus! {

/// What an operation needs to know of one account: its identity and
/// whether it signed the invocation.
#[derive(Clone, Copy, Debug)]
pub struct AccountHandle {
    /// The account's 32-byte identity.
    pub key: [u8; 32],
    /// Whether this account is a verified signer of the invocation.
    pub is_signer: bool,
}

/// What a validated payment asks the host to do: hand exactly these bytes
/// to the trusted verifier, and on its success move `amount` units from
/// payer to recipient.
#[derive(Debug)]
pub struct PaymentDirective {
    /// The 464-byte proof-witness concatenation for the verifier, and
    /// nothing else.
    pub verifier_input: Vec<u8>,
    /// The value to transfer after the verifier succeeds.
    pub amount: u64,
}

/// Mathematical image of a [`PaymentDirective`].
pub ghost struct PayDecision {
    /// The bytes handed to the verifier.
    pub verifier_input: Seq<u8>,
    /// The value to transfer.
    pub amount: u64,
}

impl View for PaymentDirective {
    type V = PayDecision;

    open spec fn view(&self) -> PayDecision {
        PayDecision { verifier_input: self.verifier_input@, amount: self.amount }
    }
}

/// The effect of a successful operation, for the host to apply atomically.
#[derive(Debug)]
pub enum GatewayEffect {
    /// Store these bytes as the fresh record at the derived address.
    RecordCreated(Vec<u8>),
    /// The record bytes were rotated in place.
    RootRotated,
    /// Run the verifier and, only on its success, the transfer.
    PaymentAuthorized(PaymentDirective),
}

/// Mathematical image of a [`GatewayEffect`].
pub ghost enum EffectView {
    /// Store these bytes as the fresh record.
    RecordCreated(Seq<u8>),
    /// The record bytes were rotated in place.
    RootRotated,
    /// Run the verifier, then the transfer.
    PaymentAuthorized(PayDecision),
}

impl View for GatewayEffect {
    type V = EffectView;

    open spec fn view(&self) -> EffectView {
        match self {
            GatewayEffect::RecordCreated(rec) => EffectView::RecordCreated(rec@),
            GatewayEffect::RootRotated => EffectView::RootRotated,
            GatewayEffect::PaymentAuthorized(d) => EffectView::PaymentAuthorized(d@),
        }
    }
}

/// Maps a handler result to its mathematical image.
pub open spec fn record_result_view(r: Result<Vec<u8>, GatewayError>) -> Result<
    Seq<u8>,
    GatewayError,
> {
    match r {
        Ok(rec) => Ok(rec@),
        Err(e) => Err(e),
    }
}

/// Maps a payment result to its mathematical image.
pub open spec fn pay_result_view(r: Result<PaymentDirective, GatewayError>) -> Result<
    PayDecision,
    GatewayError,
> {
    match r {
        Ok(d) => Ok(d@),
        Err(e) => Err(e),
    }
}

/// Maps a dispatcher result to its mathematical image.
pub open spec fn effect_result_view(r: Result<GatewayEffect, GatewayError>) -> Result<
    EffectView,
    GatewayError,
> {
    match r {
        Ok(e) => Ok(e@),
        Err(e) => Err(e),
    }
}

/// The full transition of `InitializeState`, checks in their fixed order:
/// the three account handles must be present, the administrator must have
/// signed, the target address must be the one derived from the
/// administrator, and the body must be exactly the 32-byte verifier
/// identity. On success: the byte image of the fresh record, with a zeroed
/// commitment root.
pub open spec fn initialize_spec(
    program_id: Seq<u8>,
    accounts: Seq<AccountHandle>,
    init_data: Seq<u8>,
) -> Result<Seq<u8>, GatewayError> {
    if accounts.len() < 3 {
        Err(GatewayError::NotEnoughAccountKeys)
    } else if !accounts[0].is_signer {
        Err(GatewayError::MissingRequiredSignature)
    } else if state_address_of(program_id, accounts[0].key@) != Some(accounts[1].key@) {
        Err(GatewayError::InvalidStatePda)
    } else if init_data.len() != 32 {
        Err(GatewayError::InvalidDataLength)
    } else {
        Ok(record_bytes(accounts[0].key@, zero_root(), init_data))
    }
}

/// The full transition of `SetSmtRoot`, checks in their fixed order: the
/// body must be exactly 32 bytes, the two account handles must be present,
/// the administrator must have signed, the record address must be the
/// derived one, and the record must carry a valid discriminator. On
/// success: the record with only its commitment root overwritten.
pub open spec fn set_smt_root_spec(
    program_id: Seq<u8>,
    accounts: Seq<AccountHandle>,
    state: Seq<u8>,
    data: Seq<u8>,
) -> Result<Seq<u8>, GatewayError> {
    if data.len() != 32 {
        Err(GatewayError::InvalidDataLength)
    } else if accounts.len() < 2 {
        Err(GatewayError::NotEnoughAccountKeys)
    } else if !accounts[0].is_signer {
        Err(GatewayError::MissingRequiredSignature)
    } else if state_address_of(program_id, accounts[0].key@) != Some(accounts[1].key@) {
        Err(GatewayError::InvalidStatePda)
    } else if !record_is_well_formed(state) {
        Err(GatewayError::InvalidStateAccount)
    } else {
        Ok(state.subrange(0, 40) + data + state.subrange(72, 104))
    }
}

/// The full transition of `PayAuthorized`, checks in their fixed order:
/// the body must be exactly 512 bytes, the five account handles must be
/// present, the payer must have signed, the record must carry a valid
/// discriminator, the supplied verifier must be the configured one, the
/// authorization must not be expired (the boundary instant is still
/// valid), and the witness's embedded root must equal the stored
/// commitment root. On success: the directive that carries exactly the
/// proof-witness concatenation and the amount; no record byte changes.
pub open spec fn pay_authorized_spec(
    accounts: Seq<AccountHandle>,
    state: Seq<u8>,
    data: Seq<u8>,
    now: i64,
) -> Result<PayDecision, GatewayError> {
    if data.len() != PAY_AUTHORIZED_DATA_LEN {
        Err(GatewayError::InvalidDataLength)
    } else if accounts.len() < 5 {
        Err(GatewayError::NotEnoughAccountKeys)
    } else if !accounts[0].is_signer {
        Err(GatewayError::MissingRequiredSignature)
    } else if !record_is_well_formed(state) {
        Err(GatewayError::InvalidStateAccount)
    } else if accounts[3].key@ != record_verifier_identity(state) {
        Err(GatewayError::InvalidZkVerifier)
    } else if authorization_expired(now, payload_auth_expiry(data)) {
        Err(GatewayError::AuthorizationExpired)
    } else if payload_witness_root(data) != record_smt_root(state) {
        Err(GatewayError::SmtRootMismatch)
    } else {
        Ok(
            PayDecision {
                verifier_input: payload_proof(data) + payload_witness(data),
                amount: payload_amount(data),
            },
        )
    }
}

/// Handles `InitializeState`: validates and returns the byte image of the
/// fresh record for the storage collaborator to persist atomically.
pub fn process_initialize(
    program_id: &[u8; 32],
    accounts: &[AccountHandle],
    init_data: &[u8],
) -> (r: Result<Vec<u8>, GatewayError>)
    ensures
        record_result_view(r) == initialize_spec(program_id@, accounts@, init_data@),
{
    if accounts.len() < 3 {
        return Err(GatewayError::NotEnoughAccountKeys);
    }
    let admin = &accounts[0];
    let state_account = &accounts[1];
    if !admin.is_signer {
        return Err(GatewayError::MissingRequiredSignature);
    }
    match derive_record_address(program_id, &admin.key) {
        Some(pda) => {
            if !bytes_eq(state_account.key.as_slice(), pda.as_slice()) {
                return Err(GatewayError::InvalidStatePda);
            }
        },
        None => {
            return Err(GatewayError::InvalidStatePda);
        },
    }
    if init_data.len() != 32 {
        return Err(GatewayError::InvalidDataLength);
    }
    Ok(build_record(admin.key.as_slice(), init_data))
}

/// Handles `SetSmtRoot`: validates and overwrites only the commitment-root
/// field of the record; on any failure the record is unchanged.
pub fn process_set_smt_root(
    program_id: &[u8; 32],
    accounts: &[AccountHandle],
    state_data: &mut Vec<u8>,
    data: &[u8],
) -> (r: Result<(), GatewayError>)
    ensures
        match set_smt_root_spec(program_id@, accounts@, old(state_data)@, data@) {
            Ok(rotated) => r is Ok && final(state_data)@ == rotated,
            Err(e) => r == Err::<(), GatewayError>(e) && final(state_data)@ == old(state_data)@,
        },
{
    if data.len() != 32 {
        return Err(GatewayError::InvalidDataLength);
    }
    if accounts.len() < 2 {
        return Err(GatewayError::NotEnoughAccountKeys);
    }
    let admin = &accounts[0];
    let state_account = &accounts[1];
    if !admin.is_signer {
        return Err(GatewayError::MissingRequiredSignature);
    }
    match derive_record_address(program_id, &admin.key) {
        Some(pda) => {
            if !bytes_eq(state_account.key.as_slice(), pda.as_slice()) {
                return Err(GatewayError::InvalidStatePda);
            }
        },
        None => {
            return Err(GatewayError::InvalidStatePda);
        },
    }
    let disc = state_discriminator_bytes();
    if state_data.len() != STATE_SIZE || !bytes_eq(&state_data.as_slice()[0..8], disc.as_slice())
    {
        return Err(GatewayError::InvalidStateAccount);
    }
    let mut rotated: Vec<u8> = Vec::new();
    push_bytes(&mut rotated, &state_data.as_slice()[0..40]);
    push_bytes(&mut rotated, data);
    push_bytes(&mut rotated, &state_data.as_slice()[72..104]);
    *state_data = rotated;
    Ok(())
}

/// Handles `PayAuthorized`: runs the strictly ordered validation pipeline
/// and, when every check passes, returns the directive for the host: the
/// 464-byte proof-witness concatenation for the verifier, and the amount
/// to transfer only after the verifier succeeds. Reads the record, never
/// mutates it.
pub fn process_pay_authorized(
    accounts: &[AccountHandle],
    state_data: &[u8],
    data: &[u8],
    now: i64,
) -> (r: Result<PaymentDirective, GatewayError>)
    ensures
        pay_result_view(r) == pay_authorized_spec(accounts@, state_data@, data@, now),
{
    if data.len() != PAY_AUTHORIZED_DATA_LEN {
        return Err(GatewayError::InvalidDataLength);
    }
    if accounts.len() < 5 {
        return Err(GatewayError::NotEnoughAccountKeys);
    }
    let payer = &accounts[0];
    let zk_verifier = &accounts[3];
    if !payer.is_signer {
        return Err(GatewayError::MissingRequiredSignature);
    }
    let disc = state_discriminator_bytes();
    if state_data.len() != STATE_SIZE || !bytes_eq(&state_data[0..8], disc.as_slice()) {
        return Err(GatewayError::InvalidStateAccount);
    }
    if !bytes_eq(zk_verifier.key.as_slice(), &state_data[72..104]) {
        return Err(GatewayError::InvalidZkVerifier);
    }
    let amount = vstd::bytes::u64_from_le_bytes(&data[32..40]);
    let auth_expiry = vstd::bytes::u64_from_le_bytes(&data[40..48]);
    if now >= 0 && now as u64 > auth_expiry {
        return Err(GatewayError::AuthorizationExpired);
    }
    if !bytes_eq(&data[448..480], &state_data[40..72]) {
        return Err(GatewayError::SmtRootMismatch);
    }
    let mut verifier_input: Vec<u8> = Vec::new();
    push_bytes(&mut verifier_input, &data[48..436]);
    push_bytes(&mut verifier_input, &data[436..512]);
    Ok(PaymentDirective { verifier_input, amount })
}

/// The dispatcher's full transition: the routed handler's result paired
/// with the record bytes as the invocation leaves them.
pub open spec fn gateway_transition(
    program_id: Seq<u8>,
    accounts: Seq<AccountHandle>,
    state: Seq<u8>,
    instruction_data: Seq<u8>,
    now: i64,
) -> (Result<EffectView, GatewayError>, Seq<u8>) {
    if instruction_data.len() == 0 {
        (Err(GatewayError::InvalidInstructionData), state)
    } else {
        let body = instruction_data.subrange(1, instruction_data.len() as int);
        if instruction_data[0] == instruction::INITIALIZE_STATE {
            match initialize_spec(program_id, accounts, body) {
                Ok(rec) => (Ok(EffectView::RecordCreated(rec)), state),
                Err(e) => (Err(e), state),
            }
        } else if instruction_data[0] == instruction::SET_SMT_ROOT {
            match set_smt_root_spec(program_id, accounts, state, body) {
                Ok(rotated) => (Ok(EffectView::RootRotated), rotated),
                Err(e) => (Err(e), state),
            }
        } else if instruction_data[0] == instruction::PAY_AUTHORIZED {
            match pay_authorized_spec(accounts, state, body, now) {
                Ok(d) => (Ok(EffectView::PaymentAuthorized(d)), state),
                Err(e) => (Err(e), state),
            }
        } else {
            (Err(GatewayError::InvalidInstructionData), state)
        }
    }
}

/// Routes an operation payload: the first byte picks the handler, the rest
/// is the operation body. An empty payload or an unknown tag is rejected
/// before any handler runs. `state_data` holds the record bytes; only a
/// successful `SetSmtRoot` changes them. `now` is the clock reading that
/// the payment pipeline compares against the expiry.
pub fn process_instruction(
    program_id: &[u8; 32],
    accounts: &[AccountHandle],
    state_data: &mut Vec<u8>,
    instruction_data: &[u8],
    now: i64,
) -> (r: Result<GatewayEffect, GatewayError>)
    ensures
        ({
            let (res, end_state) = gateway_transition(
                program_id@,
                accounts@,
                old(state_data)@,
                instruction_data@,
                now,
            );
            effect_result_view(r) == res && final(state_data)@ == end_state
        }),
{
    if instruction_data.len() == 0 {
        return Err(GatewayError::InvalidInstructionData);
    }
    let tag = instruction_data[0];
    let body = &instruction_data[1..instruction_data.len()];
    if tag == instruction::INITIALIZE_STATE {
        match process_initialize(program_id, accounts, body) {
            Ok(rec) => Ok(GatewayEffect::RecordCreated(rec)),
            Err(e) => Err(e),
        }
    } else if tag == instruction::SET_SMT_ROOT {
        match process_set_smt_root(program_id, accounts, state_data, body) {
            Ok(()) => Ok(GatewayEffect::RootRotated),
            Err(e) => Err(e),
        }
    } else if tag == instruction::PAY_AUTHORIZED {
        match process_pay_authorized(accounts, state_data.as_slice(), body, now) {
            Ok(d) => Ok(GatewayEffect::PaymentAuthorized(d)),
            Err(e) => Err(e),
        }
    } else {
        Err(GatewayError::InvalidInstructionData)
    }
}

} // verus!
