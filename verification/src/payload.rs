//! Layout of the 512-byte authorization payload.
//!
//! The payload is caller-supplied and never persisted:
//! `auth_id` (32 bytes) - `amount` (8 bytes, little-endian) - `auth_expiry`
//! (8 bytes, little-endian) - `proof` (388 bytes, opaque) - `witness`
//! (76 bytes, opaque except for the embedded root at bytes 12..44).

use vstd::prelude::*;

verus! {

/// Length of the opaque proof region.
pub const PROOF_LEN: usize = 388;

/// Length of the witness region.
pub const WITNESS_LEN: usize = 76;

/// Length of the payload header: authorization id, amount, expiry.
pub const PAY_AUTHORIZED_HEADER_LEN: usize = 32 + 8 + 8;

/// Total length of an authorization payload.
pub const PAY_AUTHORIZED_DATA_LEN: usize = PAY_AUTHORIZED_HEADER_LEN + PROOF_LEN + WITNESS_LEN;

/// The value to transfer, read little-endian from bytes 32..40.
pub open spec fn payload_amount(d: Seq<u8>) -> u64 {
    vstd::bytes::spec_u64_from_le_bytes(d.subrange(32, 40))
}

/// The expiry timestamp, read little-endian from bytes 40..48.
pub open spec fn payload_auth_expiry(d: Seq<u8>) -> u64 {
    vstd::bytes::spec_u64_from_le_bytes(d.subrange(40, 48))
}

/// The opaque proof region, bytes 48..436.
pub open spec fn payload_proof(d: Seq<u8>) -> Seq<u8> {
    d.subrange(48, 436)
}

/// The witness region, bytes 436..512.
pub open spec fn payload_witness(d: Seq<u8>) -> Seq<u8> {
    d.subrange(436, 512)
}

/// The root embedded in the witness: bytes 12..44 of the witness region.
pub open spec fn payload_witness_root(d: Seq<u8>) -> Seq<u8> {
    d.subrange(448, 480)
}

/// Whether an authorization has expired at time `now`: the clock strictly
/// exceeds the unsigned expiry field, both read as plain integers. Expiry
/// is inclusive: `now` equal to the expiry instant is still valid.
pub open spec fn authorization_expired(now: i64, expiry: u64) -> bool {
    now > expiry as int
}

} // verus!
