//! Authorization core of a micropayment gateway.
//!
//! A fixed-layout state record holds an administrator identity, a 32-byte
//! commitment root and a trusted verifier identity. Three operations act on
//! it: `InitializeState` creates the record at an address derived from the
//! administrator, `SetSmtRoot` rotates the commitment root under
//! administrator authorization, and `PayAuthorized` admits a payment only
//! after a strictly ordered validation pipeline over a 512-byte
//! authorization payload.

pub mod bytes;
pub mod derive;
mod error;
pub mod gateway;
pub mod instruction;
pub mod laws;
pub mod payload;
pub mod state;

pub use error::GatewayError;
pub use gateway::{
    process_initialize, process_instruction, process_pay_authorized, process_set_smt_root,
    AccountHandle, GatewayEffect, PaymentDirective,
};
