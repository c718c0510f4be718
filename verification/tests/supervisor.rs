use tcp_proxy::supervisor::{Supervisor, SupervisorAction, SupervisorEvent, SupervisorState};

#[test]
fn full_lifecycle_releases_once() {
    let mut s = Supervisor::new();
    assert_eq!(s.state, SupervisorState::Accepted);

    assert_eq!(s.step(SupervisorEvent::Admission(true)), SupervisorAction::ReadGreeting);
    assert_eq!(s.state, SupervisorState::Admitted);

    assert_eq!(s.step(SupervisorEvent::GreetingArrived), SupervisorAction::ValidateGreeting);
    assert_eq!(s.state, SupervisorState::Handshaking);

    assert_eq!(s.step(SupervisorEvent::GreetingValid), SupervisorAction::StartBridge);
    assert_eq!(s.state, SupervisorState::Bridging);

    assert_eq!(s.step(SupervisorEvent::BridgeFinished), SupervisorAction::StopForwarding);
    assert_eq!(s.state, SupervisorState::Closing);
    assert!(!s.released);

    assert_eq!(s.step(SupervisorEvent::TeardownComplete), SupervisorAction::ReleaseAndClose);
    assert_eq!(s.state, SupervisorState::Closed);
    assert!(s.admitted);
    assert!(s.released);
}

#[test]
fn rejected_connection_owes_no_release() {
    let mut s = Supervisor::new();
    assert_eq!(s.step(SupervisorEvent::Admission(false)), SupervisorAction::Reject);
    assert_eq!(s.state, SupervisorState::Closed);
    assert!(!s.admitted);
    assert!(!s.released);
}

#[test]
fn invalid_greeting_releases_slot() {
    let mut s = Supervisor::new();
    s.step(SupervisorEvent::Admission(true));
    s.step(SupervisorEvent::GreetingArrived);
    assert_eq!(s.step(SupervisorEvent::GreetingInvalid), SupervisorAction::ReleaseAndClose);
    assert_eq!(s.state, SupervisorState::Closed);
    assert!(s.admitted);
    assert!(s.released);
}

#[test]
fn failed_greeting_read_releases_slot() {
    let mut s = Supervisor::new();
    s.step(SupervisorEvent::Admission(true));
    assert_eq!(s.step(SupervisorEvent::GreetingReadFailed), SupervisorAction::ReleaseAndClose);
    assert_eq!(s.state, SupervisorState::Closed);
    assert!(s.admitted);
    assert!(s.released);
}
