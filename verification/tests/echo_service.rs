use echonet::echo::{
    EchoService, ServiceAction, ServiceEvent, ServiceState, ServingPhase, ECHO_PORT,
    IDLE_TIMEOUT_SECS, RX_BUFFER_CAPACITY,
};

fn serving_service() -> EchoService {
    let mut service = EchoService::new();
    assert!(matches!(service.step(ServiceEvent::Bound), ServiceAction::Accept));
    assert!(matches!(service.step(ServiceEvent::AcceptOk), ServiceAction::Read));
    assert_eq!(service.state, ServiceState::Serving(ServingPhase::AwaitRead));
    service
}

#[test]
fn hello_is_echoed_and_connection_stays_open() {
    let mut service = serving_service();
    let action = service.step(ServiceEvent::ReadData(b"hello".to_vec()));
    match action {
        ServiceAction::Write(bytes) => assert_eq!(bytes, b"hello".to_vec()),
        _ => panic!("expected a write of the read bytes"),
    }
    assert_eq!(service.state, ServiceState::Serving(ServingPhase::AwaitWrite));
    // The write succeeds and the session continues with the next read.
    assert!(matches!(service.step(ServiceEvent::WriteOk), ServiceAction::Read));
    assert_eq!(service.state, ServiceState::Serving(ServingPhase::AwaitRead));
}

#[test]
fn chunk_boundaries_are_preserved() {
    let mut service = serving_service();
    for chunk in [&b"ab"[..], &b"c"[..], &b"defgh"[..]] {
        let action = service.step(ServiceEvent::ReadData(chunk.to_vec()));
        match action {
            ServiceAction::Write(bytes) => assert_eq!(bytes, chunk.to_vec()),
            _ => panic!("expected a write of the read bytes"),
        }
        assert!(matches!(service.step(ServiceEvent::WriteOk), ServiceAction::Read));
    }
}

#[test]
fn full_buffer_chunk_is_echoed_exactly() {
    let mut service = serving_service();
    let chunk: Vec<u8> = (0..RX_BUFFER_CAPACITY).map(|i| (i % 251) as u8).collect();
    let action = service.step(ServiceEvent::ReadData(chunk.clone()));
    match action {
        ServiceAction::Write(bytes) => assert_eq!(bytes, chunk),
        _ => panic!("expected a write of the read bytes"),
    }
}

#[test]
fn eof_closes_session_and_service_accepts_again() {
    let mut service = serving_service();
    // Zero bytes read: the peer closed its write side.
    let action = service.step(ServiceEvent::ReadEof);
    assert!(matches!(action, ServiceAction::Listen));
    assert_eq!(service.state, ServiceState::Idle);
    // No restart needed: the next listen and accept open a new session.
    assert!(matches!(service.step(ServiceEvent::Bound), ServiceAction::Accept));
    assert_eq!(service.state, ServiceState::AwaitingConnection);
    assert!(matches!(service.step(ServiceEvent::AcceptOk), ServiceAction::Read));
    assert_eq!(service.state, ServiceState::Serving(ServingPhase::AwaitRead));
}

#[test]
fn read_error_closes_session() {
    let mut service = serving_service();
    assert!(matches!(service.step(ServiceEvent::ReadErr), ServiceAction::Listen));
    assert_eq!(service.state, ServiceState::Idle);
}

#[test]
fn write_error_closes_session() {
    let mut service = serving_service();
    assert!(matches!(
        service.step(ServiceEvent::ReadData(b"x".to_vec())),
        ServiceAction::Write(_)
    ));
    assert!(matches!(service.step(ServiceEvent::WriteErr), ServiceAction::Listen));
    assert_eq!(service.state, ServiceState::Idle);
}

#[test]
fn accept_error_relists_without_ending_task() {
    let mut service = EchoService::new();
    assert!(matches!(service.step(ServiceEvent::Bound), ServiceAction::Accept));
    assert!(matches!(service.step(ServiceEvent::AcceptErr), ServiceAction::Listen));
    assert_eq!(service.state, ServiceState::Idle);
    assert!(matches!(service.step(ServiceEvent::Bound), ServiceAction::Accept));
    assert_eq!(service.state, ServiceState::AwaitingConnection);
}

#[test]
fn service_constants_are_fixed() {
    assert_eq!(ECHO_PORT, 1234);
    assert_eq!(IDLE_TIMEOUT_SECS, 10);
    assert_eq!(RX_BUFFER_CAPACITY, 4096);
}
