//! Verified decision logic of the Nitro attestation service and of the
//! Nitro flavour of the Veracruz server.

mod bytes;
mod digest;
pub mod attestation;
pub mod encoding;
pub mod runtime_manager;
pub mod startup;
pub mod tls;
