//! Bringing up a Nitro Runtime Manager enclave: the decisions between the
//! calls to the proxy attestation server and the exchanges with the
//! enclave. The caller performs each action and feeds back what came of it.

use vstd::prelude::*;
use crate::runtime_manager::{RuntimeManagerRequest, RuntimeManagerResponse, Status, VeracruzServerError};

verus! {

/// Where the bring-up of an enclave stands.
#[derive(Debug)]
pub enum NitroStartup {
    /// The proxy attestation server has not yet issued a challenge.
    AwaitingProxyAttestation { policy_json: String },
    /// The challenge is known; the enclave is being launched.
    AwaitingEnclave { policy_json: String, challenge_id: i32, challenge: Vec<u8> },
    /// The enclave was asked for an attestation document.
    AwaitingAttestationData { policy_json: String, challenge_id: i32 },
    /// The proxy attestation server is checking the attestation document.
    AwaitingCertChain { policy_json: String },
    /// The enclave was asked to initialize itself.
    AwaitingInitializeStatus,
    /// The enclave is initialized.
    Ready,
    /// The bring-up failed.
    Failed,
}

/// What came of the last action.
#[derive(Debug)]
pub enum StartupEvent {
    ProxyAttestationStarted { challenge_id: i32, challenge: Vec<u8> },
    EnclaveLaunched,
    Response(RuntimeManagerResponse),
    CertChain(Vec<u8>),
}

/// What the caller is to do next.
#[derive(Debug)]
pub enum StartupAction {
    LaunchEnclave,
    Send(RuntimeManagerRequest),
    /// Hand the attestation document and the certificate signing request to
    /// the proxy attestation server, for the challenge of `challenge_id`.
    CompleteProxyAttestation { attestation_doc: Vec<u8>, csr: Vec<u8>, challenge_id: i32 },
    /// The enclave is ready for use.
    Finish,
    Fail(VeracruzServerError),
}

/// Whether `event` is what the bring-up in `state` waits for.
pub open spec fn startup_expects(state: NitroStartup, event: StartupEvent) -> bool {
    match state {
        NitroStartup::AwaitingProxyAttestation { .. } => event is ProxyAttestationStarted,
        NitroStartup::AwaitingEnclave { .. } => event is EnclaveLaunched,
        NitroStartup::AwaitingAttestationData { .. } => event is Response,
        NitroStartup::AwaitingCertChain { .. } => event is CertChain,
        NitroStartup::AwaitingInitializeStatus => event is Response,
        NitroStartup::Ready => false,
        NitroStartup::Failed => false,
    }
}

/// The next state and action of the bring-up in `state` on `event`.
pub open spec fn startup_transition(state: NitroStartup, event: StartupEvent) -> (NitroStartup, StartupAction) {
    match (state, event) {
        (
            NitroStartup::AwaitingProxyAttestation { policy_json },
            StartupEvent::ProxyAttestationStarted { challenge_id, challenge },
        ) => (
            NitroStartup::AwaitingEnclave { policy_json, challenge_id, challenge },
            StartupAction::LaunchEnclave,
        ),
        (
            NitroStartup::AwaitingEnclave { policy_json, challenge_id, challenge },
            StartupEvent::EnclaveLaunched,
        ) => (
            NitroStartup::AwaitingAttestationData { policy_json, challenge_id },
            StartupAction::Send(RuntimeManagerRequest::Attestation(challenge, challenge_id)),
        ),
        (
            NitroStartup::AwaitingAttestationData { policy_json, challenge_id },
            StartupEvent::Response(response),
        ) => match response {
            RuntimeManagerResponse::AttestationData(attestation_doc, csr) => (
                NitroStartup::AwaitingCertChain { policy_json },
                StartupAction::CompleteProxyAttestation { attestation_doc, csr, challenge_id },
            ),
            other => (
                NitroStartup::Failed,
                StartupAction::Fail(VeracruzServerError::InvalidRuntimeManagerResponse(other)),
            ),
        },
        (NitroStartup::AwaitingCertChain { policy_json }, StartupEvent::CertChain(cert_chain)) => (
            NitroStartup::AwaitingInitializeStatus,
            StartupAction::Send(RuntimeManagerRequest::Initialize(policy_json, cert_chain)),
        ),
        (NitroStartup::AwaitingInitializeStatus, StartupEvent::Response(response)) => match response {
            RuntimeManagerResponse::Status(Status::Success) => (NitroStartup::Ready, StartupAction::Finish),
            RuntimeManagerResponse::Status(status) => (
                NitroStartup::Failed,
                StartupAction::Fail(VeracruzServerError::Status(status)),
            ),
            other => (
                NitroStartup::Failed,
                StartupAction::Fail(VeracruzServerError::InvalidRuntimeManagerResponse(other)),
            ),
        },
        _ => arbitrary(),
    }
}

impl NitroStartup {
    /// A bring-up for the policy `policy_json`, waiting for the proxy
    /// attestation server's challenge.
    pub fn new(policy_json: String) -> (res: Self)
        ensures
            res == (NitroStartup::AwaitingProxyAttestation { policy_json }),
    {
        NitroStartup::AwaitingProxyAttestation { policy_json }
    }

    /// Whether `event` is what this bring-up waits for.
    pub fn expects(&self, event: &StartupEvent) -> (res: bool)
        ensures
            res == startup_expects(*self, *event),
            (*self is AwaitingAttestationData || *self is AwaitingInitializeStatus) && *event is Response ==> res,
            *self is AwaitingProxyAttestation ==> (res <==> *event is ProxyAttestationStarted),
            *self is AwaitingEnclave ==> (res <==> *event is EnclaveLaunched),
            *self is AwaitingCertChain ==> (res <==> *event is CertChain),
            *self is Ready || *self is Failed ==> !res,
    {
        match self {
            NitroStartup::AwaitingProxyAttestation { .. } => {
                matches!(event, StartupEvent::ProxyAttestationStarted { .. })
            },
            NitroStartup::AwaitingEnclave { .. } => matches!(event, StartupEvent::EnclaveLaunched),
            NitroStartup::AwaitingAttestationData { .. } => matches!(event, StartupEvent::Response(_)),
            NitroStartup::AwaitingCertChain { .. } => matches!(event, StartupEvent::CertChain(_)),
            NitroStartup::AwaitingInitializeStatus => matches!(event, StartupEvent::Response(_)),
            NitroStartup::Ready => false,
            NitroStartup::Failed => false,
        }
    }

    /// Takes in what came of the last action and decides the next one.
    pub fn step(self, event: StartupEvent) -> (res: (NitroStartup, StartupAction))
        requires
            startup_expects(self, event),
        ensures
            res == startup_transition(self, event),
            res.1 is Finish ==> res.0 is Ready,
            res.0 is Ready ==> (res.1 is Finish && self is AwaitingInitializeStatus && event
                == StartupEvent::Response(RuntimeManagerResponse::Status(Status::Success))),
            self is AwaitingAttestationData ==> match event {
                StartupEvent::Response(RuntimeManagerResponse::AttestationData(..)) => res.0 is AwaitingCertChain,
                StartupEvent::Response(other) => res.0 is Failed && res.1 == StartupAction::Fail(
                    VeracruzServerError::InvalidRuntimeManagerResponse(other),
                ),
                _ => true,
            },
    {
        match (self, event) {
            (
                NitroStartup::AwaitingProxyAttestation { policy_json },
                StartupEvent::ProxyAttestationStarted { challenge_id, challenge },
            ) => (
                NitroStartup::AwaitingEnclave { policy_json, challenge_id, challenge },
                StartupAction::LaunchEnclave,
            ),
            (
                NitroStartup::AwaitingEnclave { policy_json, challenge_id, challenge },
                StartupEvent::EnclaveLaunched,
            ) => (
                NitroStartup::AwaitingAttestationData { policy_json, challenge_id },
                StartupAction::Send(RuntimeManagerRequest::Attestation(challenge, challenge_id)),
            ),
            (
                NitroStartup::AwaitingAttestationData { policy_json, challenge_id },
                StartupEvent::Response(response),
            ) => match response {
                RuntimeManagerResponse::AttestationData(attestation_doc, csr) => (
                    NitroStartup::AwaitingCertChain { policy_json },
                    StartupAction::CompleteProxyAttestation { attestation_doc, csr, challenge_id },
                ),
                other => (
                    NitroStartup::Failed,
                    StartupAction::Fail(VeracruzServerError::InvalidRuntimeManagerResponse(other)),
                ),
            },
            (NitroStartup::AwaitingCertChain { policy_json }, StartupEvent::CertChain(cert_chain)) => (
                NitroStartup::AwaitingInitializeStatus,
                StartupAction::Send(RuntimeManagerRequest::Initialize(policy_json, cert_chain)),
            ),
            (NitroStartup::AwaitingInitializeStatus, StartupEvent::Response(response)) => {
                match response {
                    RuntimeManagerResponse::Status(Status::Success) => (
                        NitroStartup::Ready,
                        StartupAction::Finish,
                    ),
                    RuntimeManagerResponse::Status(status) => (
                        NitroStartup::Failed,
                        StartupAction::Fail(VeracruzServerError::Status(status)),
                    ),
                    other => (
                        NitroStartup::Failed,
                        StartupAction::Fail(VeracruzServerError::InvalidRuntimeManagerResponse(other)),
                    ),
                }
            },
            (_, _) => unreached(),
        }
    }
}

/// A bring-up that goes through sends the enclave the challenge that the
/// proxy attestation server issued, with its identifier; hands the proxy
/// attestation server the enclave's attestation document and certificate
/// signing request for that identifier; provisions the enclave with the
/// policy it started with and the certificate chain obtained; and is ready
/// once the enclave reports success.
pub proof fn lemma_successful_bring_up(
    policy_json: String,
    challenge_id: i32,
    challenge: Vec<u8>,
    attestation_doc: Vec<u8>,
    csr: Vec<u8>,
    cert_chain: Vec<u8>,
)
    ensures
        ({
            let s0 = NitroStartup::AwaitingProxyAttestation { policy_json };
            let e1 = StartupEvent::ProxyAttestationStarted { challenge_id, challenge };
            let (s1, a1) = startup_transition(s0, e1);
            let e2 = StartupEvent::EnclaveLaunched;
            let (s2, a2) = startup_transition(s1, e2);
            let e3 = StartupEvent::Response(RuntimeManagerResponse::AttestationData(attestation_doc, csr));
            let (s3, a3) = startup_transition(s2, e3);
            let e4 = StartupEvent::CertChain(cert_chain);
            let (s4, a4) = startup_transition(s3, e4);
            let e5 = StartupEvent::Response(RuntimeManagerResponse::Status(Status::Success));
            let (s5, a5) = startup_transition(s4, e5);
            &&& startup_expects(s0, e1) && a1 == StartupAction::LaunchEnclave
            &&& startup_expects(s1, e2)
            &&& a2 == StartupAction::Send(RuntimeManagerRequest::Attestation(challenge, challenge_id))
            &&& startup_expects(s2, e3)
            &&& a3 == (StartupAction::CompleteProxyAttestation { attestation_doc, csr, challenge_id })
            &&& startup_expects(s3, e4)
            &&& a4 == StartupAction::Send(RuntimeManagerRequest::Initialize(policy_json, cert_chain))
            &&& startup_expects(s4, e5)
            &&& s5 == NitroStartup::Ready && a5 == StartupAction::Finish
        }),
{
}

/// The bring-up becomes ready only when the enclave answers the
/// initialization with a success status.
pub proof fn lemma_ready_only_on_success(state: NitroStartup, event: StartupEvent)
    requires
        startup_expects(state, event),
        startup_transition(state, event).0 is Ready,
    ensures
        state is AwaitingInitializeStatus,
        event == StartupEvent::Response(RuntimeManagerResponse::Status(Status::Success)),
{
}

/// The bring-up fails only on a response of the enclave, and then tells the
/// caller why.
pub proof fn lemma_failure_only_on_response(state: NitroStartup, event: StartupEvent)
    requires
        startup_expects(state, event),
        startup_transition(state, event).0 is Failed,
    ensures
        event is Response,
        startup_transition(state, event).1 is Fail,
{
}

/// The bring-up is told to finish only when it becomes ready.
pub proof fn lemma_finish_only_when_ready(state: NitroStartup, event: StartupEvent)
    requires
        startup_expects(state, event),
        startup_transition(state, event).1 is Finish,
    ensures
        startup_transition(state, event).0 is Ready,
        state is AwaitingInitializeStatus,
        event == StartupEvent::Response(RuntimeManagerResponse::Status(Status::Success)),
{
}

/// While the attestation document is awaited, every response of the enclave
/// other than an attestation document makes the bring-up fail, naming that
/// response.
pub proof fn lemma_attestation_wants_attestation_data(
    policy_json: String,
    challenge_id: i32,
    response: RuntimeManagerResponse,
)
    requires
        !(response is AttestationData),
    ensures
        startup_expects(
            NitroStartup::AwaitingAttestationData { policy_json, challenge_id },
            StartupEvent::Response(response),
        ),
        startup_transition(
            NitroStartup::AwaitingAttestationData { policy_json, challenge_id },
            StartupEvent::Response(response),
        ) == (NitroStartup::Failed, StartupAction::Fail(
            VeracruzServerError::InvalidRuntimeManagerResponse(response),
        )),
{
}

/// While the initialization is answered, every response of the enclave
/// other than a success status makes the bring-up fail.
pub proof fn lemma_initialization_wants_success(response: RuntimeManagerResponse)
    requires
        response != RuntimeManagerResponse::Status(Status::Success),
    ensures
        startup_expects(NitroStartup::AwaitingInitializeStatus, StartupEvent::Response(response)),
        startup_transition(NitroStartup::AwaitingInitializeStatus, StartupEvent::Response(response)).0 is Failed,
        startup_transition(NitroStartup::AwaitingInitializeStatus, StartupEvent::Response(response)).1 is Fail,
{
}

/// A state that waits for an enclave response takes every response, whatever
/// it carries; each other waiting state takes exactly its own kind of event;
/// a finished bring-up takes none.
pub proof fn lemma_expected_events(state: NitroStartup, event: StartupEvent)
    ensures
        (state is AwaitingAttestationData || state is AwaitingInitializeStatus) ==> (startup_expects(state, event)
            <==> event is Response),
        state is AwaitingProxyAttestation ==> (startup_expects(state, event) <==> event is ProxyAttestationStarted),
        state is AwaitingEnclave ==> (startup_expects(state, event) <==> event is EnclaveLaunched),
        state is AwaitingCertChain ==> (startup_expects(state, event) <==> event is CertChain),
        (state is Ready || state is Failed) ==> !startup_expects(state, event),
{
}

} // verus!
