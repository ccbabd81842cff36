use vexide_simulator_protocol::session::{
    CommandSignal, EventSignal, Phase, ProtocolError, Session, Signal,
};

fn active(version: i32) -> Session {
    let mut session = Session::new(version);
    assert_eq!(session.on_event(EventSignal::Handshake { version }), Ok(()));
    assert_eq!(session.on_command(CommandSignal::Handshake { version }), Ok(()));
    session
}

#[test]
fn a_session_passes_through_its_phases() {
    let mut session = Session::new(3);
    assert_eq!(session.phase(), Phase::Uninitialized);
    assert_eq!(session.on_command(CommandSignal::Handshake { version: 3 }), Ok(()));
    assert_eq!(session.phase(), Phase::AwaitingPeerHandshake);
    assert_eq!(session.on_event(EventSignal::Handshake { version: 3 }), Ok(()));
    assert_eq!(session.phase(), Phase::Active);
    assert_eq!(session.on_event(EventSignal::Exited), Ok(()));
    assert_eq!(session.phase(), Phase::Terminated);
}

#[test]
fn handshakes_may_pass_in_either_order() {
    let mut session = Session::new(1);
    assert_eq!(session.on_event(EventSignal::Handshake { version: 1 }), Ok(()));
    assert_eq!(session.phase(), Phase::AwaitingPeerHandshake);
    assert_eq!(session.on_command(CommandSignal::Handshake { version: 1 }), Ok(()));
    assert_eq!(session.phase(), Phase::Active);
}

#[test]
fn version_mismatch_is_fatal() {
    let mut session = Session::new(3);
    let verdict = session.on_event(EventSignal::Handshake { version: 2 });
    assert_eq!(verdict, Err(ProtocolError::IncompatibleVersion { local: 3, peer: 2 }));
    assert!(verdict.unwrap_err().is_fatal());
    assert_eq!(session.phase(), Phase::Terminated);
    assert_eq!(
        session.on_command(CommandSignal::Handshake { version: 3 }),
        Err(ProtocolError::SessionTerminated)
    );
}

#[test]
fn matching_version_negotiates() {
    let session = active(3);
    assert_eq!(session.phase(), Phase::Active);
    assert!(!session.ready);
    assert!(!session.started);
}

#[test]
fn nothing_but_a_handshake_passes_before_negotiation() {
    for signal in [
        Signal::Event(EventSignal::Ready),
        Signal::Event(EventSignal::Other),
        Signal::Event(EventSignal::Exited),
        Signal::Command(CommandSignal::Other),
        Signal::Command(CommandSignal::StartExecution),
    ] {
        let mut fresh = Session::new(1);
        assert_eq!(fresh.on_signal(signal), Err(ProtocolError::HandshakeExpected));
        assert_eq!(fresh.phase(), Phase::Terminated);
        let mut half = Session::new(1);
        assert_eq!(half.on_event(EventSignal::Handshake { version: 1 }), Ok(()));
        assert_eq!(half.on_signal(signal), Err(ProtocolError::HandshakeExpected));
        assert_eq!(half.phase(), Phase::Terminated);
    }
}

#[test]
fn a_second_handshake_is_fatal() {
    let mut session = active(1);
    assert_eq!(
        session.on_event(EventSignal::Handshake { version: 1 }),
        Err(ProtocolError::UnexpectedHandshake)
    );
    assert_eq!(session.phase(), Phase::Terminated);
    let mut half = Session::new(1);
    assert_eq!(half.on_command(CommandSignal::Handshake { version: 1 }), Ok(()));
    assert_eq!(
        half.on_command(CommandSignal::Handshake { version: 1 }),
        Err(ProtocolError::UnexpectedHandshake)
    );
    assert_eq!(half.phase(), Phase::Terminated);
}

#[test]
fn start_execution_before_ready_is_refused() {
    let mut session = active(1);
    let before = session;
    let verdict = session.on_command(CommandSignal::StartExecution);
    assert_eq!(verdict, Err(ProtocolError::NotReady));
    assert!(!verdict.unwrap_err().is_fatal());
    assert_eq!(session, before);
    assert_eq!(session.phase(), Phase::Active);
}

#[test]
fn start_execution_twice_is_refused_the_second_time() {
    let mut session = active(1);
    assert_eq!(session.on_event(EventSignal::Ready), Ok(()));
    assert_eq!(session.on_command(CommandSignal::StartExecution), Ok(()));
    assert!(session.started);
    let before = session;
    let verdict = session.on_command(CommandSignal::StartExecution);
    assert_eq!(verdict, Err(ProtocolError::AlreadyStarted));
    assert!(!verdict.unwrap_err().is_fatal());
    assert_eq!(session, before);
    assert_eq!(session.on_command(CommandSignal::Other), Ok(()));
    assert_eq!(session.on_event(EventSignal::Other), Ok(()));
    assert_eq!(
        session.on_command(CommandSignal::StartExecution),
        Err(ProtocolError::AlreadyStarted)
    );
}

#[test]
fn exited_is_the_last_event() {
    let mut session = active(1);
    assert_eq!(session.on_event(EventSignal::Ready), Ok(()));
    assert_eq!(session.on_event(EventSignal::Exited), Ok(()));
    assert_eq!(session.phase(), Phase::Terminated);
    for late in [EventSignal::Other, EventSignal::Ready, EventSignal::Exited, EventSignal::Handshake { version: 1 }] {
        assert_eq!(session.on_event(late), Err(ProtocolError::SessionTerminated));
        assert_eq!(session.phase(), Phase::Terminated);
    }
    assert_eq!(
        session.on_command(CommandSignal::Other),
        Err(ProtocolError::SessionTerminated)
    );
    assert!(ProtocolError::SessionTerminated.is_fatal());
}

#[test]
fn commands_are_accepted_before_execution_starts() {
    let mut session = active(1);
    assert_eq!(session.on_command(CommandSignal::Other), Ok(()));
    assert_eq!(session.on_event(EventSignal::Other), Ok(()));
    assert_eq!(session.on_event(EventSignal::Ready), Ok(()));
    assert_eq!(session.on_event(EventSignal::Ready), Ok(()));
    assert!(session.ready);
}

#[test]
fn fatal_errors_are_told_from_the_others() {
    assert!(ProtocolError::IncompatibleVersion { local: 1, peer: 2 }.is_fatal());
    assert!(ProtocolError::HandshakeExpected.is_fatal());
    assert!(ProtocolError::UnexpectedHandshake.is_fatal());
    assert!(!ProtocolError::NotReady.is_fatal());
    assert!(!ProtocolError::AlreadyStarted.is_fatal());
}
