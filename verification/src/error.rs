//! Error taxonomy of the gateway. Every failure is terminal for the current
//! invocation; no operation retries internally.

use vstd::prelude::*;

verus! {

/// Why an operation was refused. Each variant is tied to exactly one check
/// of the validation pipelines, so a caller can diagnose a rejection without
/// seeing the record's contents.
#[derive(Clone, Copy, Debug, PartialEq, Eq, Structural)]
pub enum GatewayError {
    /// An operation body whose length does not match the operation's fixed
    /// schema.
    InvalidDataLength,
    /// The record's discriminator check failed: the record is corrupt or was
    /// never initialized.
    InvalidStateAccount,
    /// The witness's embedded root disagrees with the stored commitment
    /// root.
    SmtRootMismatch,
    /// The supplied record address does not match the address derived from
    /// the administrator's identity.
    InvalidStatePda,
    /// The supplied verifier identity differs from the one configured at
    /// initialization.
    InvalidZkVerifier,
    /// The current time is strictly past the payload's expiry.
    AuthorizationExpired,
    /// The operation payload is empty or its tag is unrecognized.
    InvalidInstructionData,
    /// A required signer is absent.
    MissingRequiredSignature,
    /// Fewer account handles were supplied than the operation needs.
    NotEnoughAccountKeys,
}

} // verus!
