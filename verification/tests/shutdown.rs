use sep2_client::shutdown::{
    accept_step, conn_step, AcceptAction, AcceptEvent, ConnEvent, ConnState, ShutdownCoordinator,
};

#[test]
fn accept_loop_decisions() {
    assert_eq!(accept_step(AcceptEvent::Shutdown), AcceptAction::StopAccepting);
    assert_eq!(accept_step(AcceptEvent::Connection), AcceptAction::Serve);
    assert_eq!(accept_step(AcceptEvent::AcceptError), AcceptAction::Retry);
}

#[test]
fn connection_lifecycle() {
    assert_eq!(
        conn_step(ConnState::Handshaking, ConnEvent::HandshakeOk),
        ConnState::Serving
    );
    assert_eq!(
        conn_step(ConnState::Handshaking, ConnEvent::HandshakeFailed),
        ConnState::Closed
    );
    assert_eq!(
        conn_step(ConnState::Serving, ConnEvent::DriverFinished),
        ConnState::Closed
    );
    // Closed is terminal under every event.
    for ev in [
        ConnEvent::HandshakeOk,
        ConnEvent::HandshakeFailed,
        ConnEvent::DriverFinished,
    ] {
        assert_eq!(conn_step(ConnState::Closed, ev), ConnState::Closed);
    }
}

#[test]
fn graceful_drain_waits_for_every_connection() {
    let mut c = ShutdownCoordinator::new();
    assert!(!c.drained());
    c.connection_opened();
    c.connection_opened();
    assert!(!c.drained());
    c.signal_shutdown();
    assert!(!c.drained());
    c.connection_closed();
    assert!(!c.drained());
    c.connection_closed();
    assert!(c.drained());
}

#[test]
fn drain_without_connections_completes_at_the_signal() {
    let mut c = ShutdownCoordinator::new();
    c.signal_shutdown();
    assert!(c.drained());
}
