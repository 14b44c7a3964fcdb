//! Operation tags: the first byte of every operation payload.

use vstd::prelude::*;

verus! {

/// Creates the state record at the derived address.
pub const INITIALIZE_STATE: u8 = 0;

/// Rotates the commitment root under administrator authorization.
pub const SET_SMT_ROOT: u8 = 1;

/// Admits a payment against a valid, non-expired authorization.
pub const PAY_AUTHORIZED: u8 = 2;

} // verus!
