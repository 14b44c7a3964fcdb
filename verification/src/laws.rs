//! The library's laws: properties that hold of every input, stated over
//! the same spec functions that the handlers' contracts use, and proved
//! once and for all.

use vstd::prelude::*;

use crate::derive::state_address_of;
use crate::error::GatewayError;
use crate::gateway::{
    initialize_spec, pay_authorized_spec, set_smt_root_spec, AccountHandle, PayDecision,
};
use crate::payload::{
    authorization_expired, payload_auth_expiry, payload_proof, payload_witness,
    payload_witness_root, PAY_AUTHORIZED_DATA_LEN, PROOF_LEN, WITNESS_LEN,
};
use crate::state::{
    record_admin, record_bytes, record_is_well_formed, record_smt_root, record_verifier_identity,
    zero_root,
};

verus! {

/// The derived record address is a function of the program identity and
/// the administrator identity alone: handles that share a key derive the
/// same address, whatever their other fields or the rest of the input.
pub proof fn lemma_record_address_deterministic(
    program_id: Seq<u8>,
    a1: AccountHandle,
    a2: AccountHandle,
)
    requires
        a1.key@ == a2.key@,
    ensures
        state_address_of(program_id, a1.key@) == state_address_of(program_id, a2.key@),
{
}

/// `InitializeState` fails with a missing-signature error whenever the
/// administrator handle did not sign, regardless of every other input.
pub proof fn lemma_initialize_requires_signer(
    program_id: Seq<u8>,
    accounts: Seq<AccountHandle>,
    init_data: Seq<u8>,
)
    requires
        accounts.len() >= 3,
        !accounts[0].is_signer,
    ensures
        initialize_spec(program_id, accounts, init_data) == Err::<Seq<u8>, GatewayError>(
            GatewayError::MissingRequiredSignature,
        ),
{
}

/// `InitializeState` rejects a target address other than the derived one,
/// and, at the right address, a body that is not exactly 32 bytes.
pub proof fn lemma_initialize_rejects_wrong_inputs(
    program_id: Seq<u8>,
    accounts: Seq<AccountHandle>,
    init_data: Seq<u8>,
)
    ensures
        accounts.len() >= 3 && accounts[0].is_signer && state_address_of(
            program_id,
            accounts[0].key@,
        ) != Some(accounts[1].key@) ==> initialize_spec(program_id, accounts, init_data)
            == Err::<Seq<u8>, GatewayError>(GatewayError::InvalidStatePda),
        accounts.len() >= 3 && accounts[0].is_signer && state_address_of(
            program_id,
            accounts[0].key@,
        ) == Some(accounts[1].key@) && init_data.len() != 32 ==> initialize_spec(
            program_id,
            accounts,
            init_data,
        ) == Err::<Seq<u8>, GatewayError>(GatewayError::InvalidDataLength),
{
}

/// A record created by `InitializeState` is well formed and carries the
/// administrator's identity, a zeroed commitment root, and the supplied
/// verifier identity.
pub proof fn lemma_created_record_shape(
    program_id: Seq<u8>,
    accounts: Seq<AccountHandle>,
    init_data: Seq<u8>,
)
    ensures
        initialize_spec(program_id, accounts, init_data) matches Ok(rec) ==> {
            &&& record_is_well_formed(rec)
            &&& record_admin(rec) == accounts[0].key@
            &&& record_smt_root(rec) == zero_root()
            &&& record_verifier_identity(rec) == init_data
        },
{
    if initialize_spec(program_id, accounts, init_data) is Ok {
        let rec = record_bytes(accounts[0].key@, zero_root(), init_data);
        assert(rec.subrange(0, 8) =~= crate::state::state_discriminator());
        assert(record_admin(rec) =~= accounts[0].key@);
        assert(record_smt_root(rec) =~= zero_root());
        assert(record_verifier_identity(rec) =~= init_data);
    }
}

/// `SetSmtRoot` rejects, in order: a body that is not exactly 32 bytes, a
/// non-signer administrator, and a record address other than the derived
/// one.
pub proof fn lemma_set_root_validation(
    program_id: Seq<u8>,
    accounts: Seq<AccountHandle>,
    state: Seq<u8>,
    data: Seq<u8>,
)
    ensures
        data.len() != 32 ==> set_smt_root_spec(program_id, accounts, state, data) == Err::<
            Seq<u8>,
            GatewayError,
        >(GatewayError::InvalidDataLength),
        data.len() == 32 && accounts.len() >= 2 && !accounts[0].is_signer ==> set_smt_root_spec(
            program_id,
            accounts,
            state,
            data,
        ) == Err::<Seq<u8>, GatewayError>(GatewayError::MissingRequiredSignature),
        data.len() == 32 && accounts.len() >= 2 && accounts[0].is_signer && state_address_of(
            program_id,
            accounts[0].key@,
        ) != Some(accounts[1].key@) ==> set_smt_root_spec(program_id, accounts, state, data)
            == Err::<Seq<u8>, GatewayError>(GatewayError::InvalidStatePda),
{
}

/// A successful rotation overwrites only the commitment root: the record
/// stays well formed, its administrator and verifier identities are
/// untouched, and the new root is exactly the supplied body.
pub proof fn lemma_rotation_preserves_identities(
    program_id: Seq<u8>,
    accounts: Seq<AccountHandle>,
    state: Seq<u8>,
    data: Seq<u8>,
)
    ensures
        set_smt_root_spec(program_id, accounts, state, data) matches Ok(rotated) ==> {
            &&& record_is_well_formed(rotated)
            &&& record_admin(rotated) == record_admin(state)
            &&& record_verifier_identity(rotated) == record_verifier_identity(state)
            &&& record_smt_root(rotated) == data
        },
{
    if set_smt_root_spec(program_id, accounts, state, data) is Ok {
        let rotated = state.subrange(0, 40) + data + state.subrange(72, 104);
        assert(rotated.subrange(0, 8) =~= state.subrange(0, 8));
        assert(record_admin(rotated) =~= record_admin(state));
        assert(record_verifier_identity(rotated) =~= record_verifier_identity(state));
        assert(record_smt_root(rotated) =~= data);
    }
}

/// `PayAuthorized` rejects any body whose length is not exactly 512,
/// before reading anything else.
pub proof fn lemma_pay_rejects_wrong_length(
    accounts: Seq<AccountHandle>,
    state: Seq<u8>,
    data: Seq<u8>,
    now: i64,
)
    requires
        data.len() != PAY_AUTHORIZED_DATA_LEN,
    ensures
        pay_authorized_spec(accounts, state, data, now) == Err::<PayDecision, GatewayError>(
            GatewayError::InvalidDataLength,
        ),
{
}

/// `PayAuthorized` fails with a missing-signature error whenever the payer
/// did not sign, even with an otherwise well-formed 512-byte body.
pub proof fn lemma_pay_requires_signer(
    accounts: Seq<AccountHandle>,
    state: Seq<u8>,
    data: Seq<u8>,
    now: i64,
)
    requires
        data.len() == PAY_AUTHORIZED_DATA_LEN,
        accounts.len() >= 5,
        !accounts[0].is_signer,
    ensures
        pay_authorized_spec(accounts, state, data, now) == Err::<PayDecision, GatewayError>(
            GatewayError::MissingRequiredSignature,
        ),
{
}

/// Every payment is bound to the verifier configured at initialization: a
/// supplied verifier identity that differs from the stored one is rejected,
/// whatever the payload holds.
pub proof fn lemma_pay_binds_verifier(
    accounts: Seq<AccountHandle>,
    state: Seq<u8>,
    data: Seq<u8>,
    now: i64,
)
    requires
        data.len() == PAY_AUTHORIZED_DATA_LEN,
        accounts.len() >= 5,
        accounts[0].is_signer,
        record_is_well_formed(state),
        accounts[3].key@ != record_verifier_identity(state),
    ensures
        pay_authorized_spec(accounts, state, data, now) == Err::<PayDecision, GatewayError>(
            GatewayError::InvalidZkVerifier,
        ),
{
}

/// Expiry is enforced strictly and inclusively: with all earlier checks
/// passed, the payment fails as expired exactly when the clock is strictly
/// past the expiry field, and the boundary instant is still valid — on it,
/// a matching witness root yields success.
pub proof fn lemma_pay_expiry_boundary(
    accounts: Seq<AccountHandle>,
    state: Seq<u8>,
    data: Seq<u8>,
    now: i64,
)
    requires
        data.len() == PAY_AUTHORIZED_DATA_LEN,
        accounts.len() >= 5,
        accounts[0].is_signer,
        record_is_well_formed(state),
        accounts[3].key@ == record_verifier_identity(state),
    ensures
        pay_authorized_spec(accounts, state, data, now) == Err::<PayDecision, GatewayError>(
            GatewayError::AuthorizationExpired,
        ) <==> now > payload_auth_expiry(data) as int,
        now == payload_auth_expiry(data) as int && payload_witness_root(data)
            == record_smt_root(state) ==> pay_authorized_spec(accounts, state, data, now) is Ok,
{
}

/// With all earlier checks passed, the payment fails on the commitment
/// check exactly when the witness's embedded root differs from the stored
/// commitment root.
pub proof fn lemma_pay_commitment(
    accounts: Seq<AccountHandle>,
    state: Seq<u8>,
    data: Seq<u8>,
    now: i64,
)
    requires
        data.len() == PAY_AUTHORIZED_DATA_LEN,
        accounts.len() >= 5,
        accounts[0].is_signer,
        record_is_well_formed(state),
        accounts[3].key@ == record_verifier_identity(state),
        !authorization_expired(now, payload_auth_expiry(data)),
    ensures
        pay_authorized_spec(accounts, state, data, now) == Err::<PayDecision, GatewayError>(
            GatewayError::SmtRootMismatch,
        ) <==> payload_witness_root(data) != record_smt_root(state),
{
}

/// The commitment check is independent of the proof region: two payloads
/// that agree on the header and the witness region pass or fail the
/// commitment check together.
pub proof fn lemma_commitment_check_ignores_proof(
    accounts: Seq<AccountHandle>,
    state: Seq<u8>,
    d1: Seq<u8>,
    d2: Seq<u8>,
    now: i64,
)
    requires
        d1.len() == PAY_AUTHORIZED_DATA_LEN,
        d2.len() == PAY_AUTHORIZED_DATA_LEN,
        d1.subrange(0, 48) == d2.subrange(0, 48),
        d1.subrange(436, 512) == d2.subrange(436, 512),
    ensures
        pay_authorized_spec(accounts, state, d1, now) == Err::<PayDecision, GatewayError>(
            GatewayError::SmtRootMismatch,
        ) <==> pay_authorized_spec(accounts, state, d2, now) == Err::<PayDecision, GatewayError>(
            GatewayError::SmtRootMismatch,
        ),
{
    assert forall|j: int| 0 <= j < 8 implies d1.subrange(40, 48)[j] == d2.subrange(40, 48)[j] by {
        assert(d1.subrange(0, 48)[40 + j] == d1[40 + j]);
        assert(d2.subrange(0, 48)[40 + j] == d2[40 + j]);
        assert(d1.subrange(40, 48)[j] == d1[40 + j]);
        assert(d2.subrange(40, 48)[j] == d2[40 + j]);
    }
    assert(d1.subrange(40, 48) =~= d2.subrange(40, 48));
    assert forall|j: int| 0 <= j < 32 implies d1.subrange(448, 480)[j] == d2.subrange(448, 480)[j]
    by {
        assert(d1.subrange(436, 512)[12 + j] == d1[448 + j]);
        assert(d2.subrange(436, 512)[12 + j] == d2[448 + j]);
        assert(d1.subrange(448, 480)[j] == d1[448 + j]);
        assert(d2.subrange(448, 480)[j] == d2[448 + j]);
    }
    assert(d1.subrange(448, 480) =~= d2.subrange(448, 480));
}

/// End to end: initialize a record with some verifier identity, rotate its
/// root. A payment whose witness embeds anything but the rotated root
/// fails the commitment check, and one embedding the rotated root passes
/// it, handing the verifier exactly the 464-byte proof-witness
/// concatenation.
pub proof fn lemma_rotation_gates_witness(
    program_id: Seq<u8>,
    admin_accounts: Seq<AccountHandle>,
    pay_accounts: Seq<AccountHandle>,
    verifier_identity: Seq<u8>,
    new_root: Seq<u8>,
    stale: Seq<u8>,
    fresh: Seq<u8>,
    now: i64,
)
    requires
        pay_accounts.len() >= 5,
        pay_accounts[0].is_signer,
        pay_accounts[3].key@ == verifier_identity,
        stale.len() == PAY_AUTHORIZED_DATA_LEN,
        fresh.len() == PAY_AUTHORIZED_DATA_LEN,
        payload_witness_root(stale) != new_root,
        payload_witness_root(fresh) == new_root,
        !authorization_expired(now, payload_auth_expiry(stale)),
        !authorization_expired(now, payload_auth_expiry(fresh)),
    ensures
        initialize_spec(program_id, admin_accounts, verifier_identity) matches Ok(created)
            ==> set_smt_root_spec(program_id, admin_accounts, created, new_root) matches Ok(
            rotated,
        ) ==> {
            &&& pay_authorized_spec(pay_accounts, rotated, stale, now) == Err::<
                PayDecision,
                GatewayError,
            >(GatewayError::SmtRootMismatch)
            &&& pay_authorized_spec(pay_accounts, rotated, fresh, now) matches Ok(d) && {
                &&& d.verifier_input == payload_proof(fresh) + payload_witness(fresh)
                &&& d.verifier_input.len() == PROOF_LEN + WITNESS_LEN
                &&& d.amount == crate::payload::payload_amount(fresh)
            }
        },
{
    if initialize_spec(program_id, admin_accounts, verifier_identity) is Ok {
        let created = record_bytes(admin_accounts[0].key@, zero_root(), verifier_identity);
        lemma_created_record_shape(program_id, admin_accounts, verifier_identity);
        assert(initialize_spec(program_id, admin_accounts, verifier_identity) == Ok::<
            Seq<u8>,
            GatewayError,
        >(created));
        if set_smt_root_spec(program_id, admin_accounts, created, new_root) is Ok {
            let rotated = created.subrange(0, 40) + new_root + created.subrange(72, 104);
            lemma_rotation_preserves_identities(program_id, admin_accounts, created, new_root);
            assert(set_smt_root_spec(program_id, admin_accounts, created, new_root) == Ok::<
                Seq<u8>,
                GatewayError,
            >(rotated));
            assert(pay_authorized_spec(pay_accounts, rotated, stale, now) == Err::<
                PayDecision,
                GatewayError,
            >(GatewayError::SmtRootMismatch));
            assert(pay_authorized_spec(pay_accounts, rotated, fresh, now) matches Ok(d) && {
                &&& d.verifier_input == payload_proof(fresh) + payload_witness(fresh)
                &&& d.verifier_input.len() == PROOF_LEN + WITNESS_LEN
                &&& d.amount == crate::payload::payload_amount(fresh)
            });
        }
    }
}

} // verus!
