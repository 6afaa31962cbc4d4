//! The messages exchanged between the Veracruz server and the Runtime
//! Manager enclave, as far as the server's decisions read them.

use vstd::prelude::*;

verus! {

/// The status that the Runtime Manager reports for a request.
#[derive(Debug, Clone, Copy, PartialEq, Eq, Structural)]
pub enum Status {
    Success,
    Fail,
    Unimplemented,
}

/// A request from the server to the Runtime Manager.
#[derive(Debug)]
pub enum RuntimeManagerRequest {
    /// Ask for an attestation document over a challenge, with the
    /// challenge's identifier at the proxy attestation server.
    Attestation(Vec<u8>, i32),
    /// Provision the policy and the certificate chain.
    Initialize(String, Vec<u8>),
    NewTlsSession,
    SendTlsData(u32, Vec<u8>),
    GetTlsData(u32),
}

/// A response of the Runtime Manager.
#[derive(Debug)]
pub enum RuntimeManagerResponse {
    /// An attestation document and a certificate signing request.
    AttestationData(Vec<u8>, Vec<u8>),
    Status(Status),
    TlsSession(u32),
    /// Outgoing TLS data, and whether the session is still alive.
    TlsData(Vec<u8>, bool),
}

/// Why the server refuses to go on with the Runtime Manager.
#[derive(Debug)]
pub enum VeracruzServerError {
    /// The Runtime Manager answered with a response that does not fit the
    /// request.
    InvalidRuntimeManagerResponse(RuntimeManagerResponse),
    /// The Runtime Manager reported a status other than success.
    Status(Status),
}

} // verus!
