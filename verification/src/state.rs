//! Layout of the persisted state record.
//!
//! A record is 104 bytes: an 8-byte discriminator tag, the administrator's
//! 32-byte identity, the 32-byte commitment root, and the 32-byte identity
//! of the trusted verifier. Every read checks the discriminator before
//! trusting the remaining bytes.

use vstd::prelude::*;

use crate::bytes::push_bytes;

verus! {

/// Total size of a state record in bytes.
pub const STATE_SIZE: usize = 8 + 32 + 32 + 32;

/// The fixed 8-byte tag that opens every well-formed state record.
pub open spec fn state_discriminator() -> Seq<u8> {
    seq![0x78u8, 0x34u8, 0x30u8, 0x32u8, 0x5fu8, 0x73u8, 0x6du8, 0x74u8]
}

/// The all-zero commitment root that a freshly created record holds.
pub open spec fn zero_root() -> Seq<u8> {
    Seq::new(32, |i: int| 0u8)
}

/// The full byte image of a record with the given fields.
pub open spec fn record_bytes(admin: Seq<u8>, root: Seq<u8>, verifier: Seq<u8>) -> Seq<u8> {
    state_discriminator() + admin + root + verifier
}

/// A record is well formed when it has the full fixed size and opens with
/// the discriminator tag.
pub open spec fn record_is_well_formed(s: Seq<u8>) -> bool {
    s.len() == STATE_SIZE && s.subrange(0, 8) == state_discriminator()
}

/// The administrator identity stored in a record.
pub open spec fn record_admin(s: Seq<u8>) -> Seq<u8> {
    s.subrange(8, 40)
}

/// The commitment root stored in a record.
pub open spec fn record_smt_root(s: Seq<u8>) -> Seq<u8> {
    s.subrange(40, 72)
}

/// The verifier identity stored in a record.
pub open spec fn record_verifier_identity(s: Seq<u8>) -> Seq<u8> {
    s.subrange(72, 104)
}

/// The discriminator tag as bytes.
pub fn state_discriminator_bytes() -> (r: Vec<u8>)
    ensures
        r@ == state_discriminator(),
{
    let mut v: Vec<u8> = Vec::new();
    v.push(0x78);
    v.push(0x34);
    v.push(0x30);
    v.push(0x32);
    v.push(0x5f);
    v.push(0x73);
    v.push(0x6d);
    v.push(0x74);
    proof {
        assert(v@ =~= state_discriminator());
    }
    v
}

/// Builds the byte image of a fresh record: discriminator, administrator,
/// zeroed commitment root, verifier identity.
pub fn build_record(admin: &[u8], verifier: &[u8]) -> (r: Vec<u8>)
    requires
        admin@.len() == 32,
        verifier@.len() == 32,
    ensures
        r@ == record_bytes(admin@, zero_root(), verifier@),
{
    let mut rec = state_discriminator_bytes();
    push_bytes(&mut rec, admin);
    let mut i: usize = 0;
    while i < 32
        invariant
            i <= 32,
            rec@ == state_discriminator() + admin@ + zero_root().subrange(0, i as int),
        decreases 32 - i,
    {
        rec.push(0u8);
        proof {
            assert(rec@ =~= state_discriminator() + admin@ + zero_root().subrange(0, i + 1));
        }
        i = i + 1;
    }
    proof {
        assert(zero_root().subrange(0, 32) =~= zero_root());
    }
    push_bytes(&mut rec, verifier);
    proof {
        assert(rec@ =~= record_bytes(admin@, zero_root(), verifier@));
    }
    rec
}

} // verus!
