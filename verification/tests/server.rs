use veracruz_nitro::runtime_manager::{
    RuntimeManagerRequest, RuntimeManagerResponse, Status, VeracruzServerError,
};
use veracruz_nitro::startup::{NitroStartup, StartupAction, StartupEvent};
use veracruz_nitro::tls::{tls_session_from_response, TlsDataAction, TlsDataExchange};

fn awaiting_attestation_data() -> NitroStartup {
    let s = NitroStartup::new("{\"policy\":1}".to_string());
    let event = StartupEvent::ProxyAttestationStarted { challenge_id: 3, challenge: vec![9, 9] };
    assert!(s.expects(&event));
    let (s, a) = s.step(event);
    assert!(matches!(a, StartupAction::LaunchEnclave));
    let (s, a) = s.step(StartupEvent::EnclaveLaunched);
    match a {
        StartupAction::Send(RuntimeManagerRequest::Attestation(challenge, id)) => {
            assert_eq!(challenge, vec![9, 9]);
            assert_eq!(id, 3);
        }
        other => panic!("unexpected action {:?}", other),
    }
    s
}

#[test]
fn bring_up_succeeds() {
    let s = awaiting_attestation_data();
    let (s, a) = s.step(StartupEvent::Response(RuntimeManagerResponse::AttestationData(
        vec![1],
        vec![2],
    )));
    match a {
        StartupAction::CompleteProxyAttestation { attestation_doc, csr, challenge_id } => {
            assert_eq!(attestation_doc, vec![1]);
            assert_eq!(csr, vec![2]);
            assert_eq!(challenge_id, 3);
        }
        other => panic!("unexpected action {:?}", other),
    }
    let (s, a) = s.step(StartupEvent::CertChain(vec![5, 6]));
    match a {
        StartupAction::Send(RuntimeManagerRequest::Initialize(policy, chain)) => {
            assert_eq!(policy, "{\"policy\":1}");
            assert_eq!(chain, vec![5, 6]);
        }
        other => panic!("unexpected action {:?}", other),
    }
    let (s, a) = s.step(StartupEvent::Response(RuntimeManagerResponse::Status(Status::Success)));
    assert!(matches!(s, NitroStartup::Ready));
    assert!(matches!(a, StartupAction::Finish));
    assert!(!s.expects(&StartupEvent::EnclaveLaunched));
}

#[test]
fn bring_up_refuses_wrong_attestation_response() {
    let s = awaiting_attestation_data();
    let (s, a) = s.step(StartupEvent::Response(RuntimeManagerResponse::TlsSession(4)));
    assert!(matches!(s, NitroStartup::Failed));
    assert!(matches!(
        a,
        StartupAction::Fail(VeracruzServerError::InvalidRuntimeManagerResponse(
            RuntimeManagerResponse::TlsSession(4)
        ))
    ));
}

#[test]
fn bring_up_refuses_failed_initialization() {
    let s = awaiting_attestation_data();
    let (s, _) = s.step(StartupEvent::Response(RuntimeManagerResponse::AttestationData(
        vec![],
        vec![],
    )));
    let (s, _) = s.step(StartupEvent::CertChain(vec![]));
    assert!(!s.expects(&StartupEvent::CertChain(vec![])));
    let (s, a) = s.step(StartupEvent::Response(RuntimeManagerResponse::Status(Status::Fail)));
    assert!(matches!(s, NitroStartup::Failed));
    assert!(matches!(a, StartupAction::Fail(VeracruzServerError::Status(Status::Fail))));
}

#[test]
fn bring_up_refuses_other_initialization_response() {
    let s = awaiting_attestation_data();
    let (s, _) = s.step(StartupEvent::Response(RuntimeManagerResponse::AttestationData(
        vec![],
        vec![],
    )));
    let (s, _) = s.step(StartupEvent::CertChain(vec![]));
    let (_, a) = s.step(StartupEvent::Response(RuntimeManagerResponse::TlsData(vec![], true)));
    assert!(matches!(
        a,
        StartupAction::Fail(VeracruzServerError::InvalidRuntimeManagerResponse(
            RuntimeManagerResponse::TlsData(..)
        ))
    ));
}

#[test]
fn tls_session_is_read() {
    assert!(matches!(tls_session_from_response(RuntimeManagerResponse::TlsSession(17)), Ok(17)));
    assert!(matches!(
        tls_session_from_response(RuntimeManagerResponse::Status(Status::Success)),
        Err(VeracruzServerError::InvalidRuntimeManagerResponse(RuntimeManagerResponse::Status(
            Status::Success
        )))
    ));
}

fn collecting(session_id: u32) -> TlsDataExchange {
    let (x, request) = TlsDataExchange::start(session_id, vec![1, 2]);
    match request {
        RuntimeManagerRequest::SendTlsData(sid, input) => {
            assert_eq!(sid, session_id);
            assert_eq!(input, vec![1, 2]);
        }
        other => panic!("unexpected request {:?}", other),
    }
    let (x, a) = x.on_response(RuntimeManagerResponse::Status(Status::Success));
    assert!(matches!(a, TlsDataAction::Send(RuntimeManagerRequest::GetTlsData(s)) if s == session_id));
    x
}

#[test]
fn tls_data_is_collected_in_order() {
    let x = collecting(8);
    let (x, a) = x.on_response(RuntimeManagerResponse::TlsData(vec![1], true));
    assert!(matches!(a, TlsDataAction::Send(RuntimeManagerRequest::GetTlsData(8))));
    let (x, _) = x.on_response(RuntimeManagerResponse::TlsData(vec![2, 3], true));
    let (x, a) = x.on_response(RuntimeManagerResponse::TlsData(vec![], true));
    assert!(matches!(x, TlsDataExchange::Finished));
    match a {
        TlsDataAction::Done(active, Some(chunks)) => {
            assert!(active);
            assert_eq!(chunks, vec![vec![1], vec![2, 3]]);
        }
        other => panic!("unexpected action {:?}", other),
    }
}

#[test]
fn no_tls_data_gives_none() {
    let x = collecting(8);
    let (_, a) = x.on_response(RuntimeManagerResponse::TlsData(vec![], true));
    assert!(matches!(a, TlsDataAction::Done(true, None)));
}

#[test]
fn dead_session_is_reported() {
    let x = collecting(8);
    let (x, _) = x.on_response(RuntimeManagerResponse::TlsData(vec![4], false));
    let (_, a) = x.on_response(RuntimeManagerResponse::TlsData(vec![], true));
    match a {
        TlsDataAction::Done(active, Some(chunks)) => {
            assert!(!active);
            assert_eq!(chunks, vec![vec![4]]);
        }
        other => panic!("unexpected action {:?}", other),
    }
    let x = collecting(8);
    let (_, a) = x.on_response(RuntimeManagerResponse::TlsData(vec![], false));
    assert!(matches!(a, TlsDataAction::Done(false, None)));
}

#[test]
fn failed_send_status_is_refused() {
    let (x, _) = TlsDataExchange::start(1, vec![]);
    let (x, a) = x.on_response(RuntimeManagerResponse::Status(Status::Unimplemented));
    assert!(matches!(x, TlsDataExchange::Finished));
    assert!(matches!(a, TlsDataAction::Fail(VeracruzServerError::Status(Status::Unimplemented))));
    let (x, _) = TlsDataExchange::start(1, vec![]);
    let (_, a) = x.on_response(RuntimeManagerResponse::TlsSession(2));
    assert!(matches!(
        a,
        TlsDataAction::Fail(VeracruzServerError::InvalidRuntimeManagerResponse(
            RuntimeManagerResponse::TlsSession(2)
        ))
    ));
}

#[test]
fn unexpected_tls_data_response_fails() {
    let x = collecting(8);
    let (x, a) = x.on_response(RuntimeManagerResponse::Status(Status::Success));
    assert!(matches!(x, TlsDataExchange::Finished));
    assert!(matches!(a, TlsDataAction::Fail(VeracruzServerError::Status(Status::Fail))));
}
