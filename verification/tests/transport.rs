use anvil_rpc::connection::{
    ConnectionEvent, ConnectionPhase, ConnectionSubscriptions, PendingRequests, next_phase,
};
use anvil_rpc::ipc::{IpcError, IpcListenerState, ListenerAction, ListenerEvent, try_spawn_outcome};
use anvil_rpc::launcher::{BindError, BindOutcome, ServerLauncher, ServerStage};

#[test]
fn connection_phases_move_one_way() {
    assert_eq!(
        next_phase(ConnectionPhase::Accepted, ConnectionEvent::Started),
        ConnectionPhase::Running
    );
    assert_eq!(
        next_phase(ConnectionPhase::Running, ConnectionEvent::Frame),
        ConnectionPhase::Running
    );
    assert_eq!(
        next_phase(ConnectionPhase::Running, ConnectionEvent::EndOfStream),
        ConnectionPhase::Closed
    );
    assert_eq!(
        next_phase(ConnectionPhase::Running, ConnectionEvent::ProtocolError),
        ConnectionPhase::Closed
    );
    assert_eq!(
        next_phase(ConnectionPhase::Accepted, ConnectionEvent::Shutdown),
        ConnectionPhase::Closed
    );
}

#[test]
fn closed_connection_is_never_reused() {
    let events = [
        ConnectionEvent::Started,
        ConnectionEvent::Frame,
        ConnectionEvent::EndOfStream,
        ConnectionEvent::ProtocolError,
        ConnectionEvent::Shutdown,
    ];
    for e in events {
        assert_eq!(next_phase(ConnectionPhase::Closed, e), ConnectionPhase::Closed);
    }
}

#[test]
fn responses_pair_with_their_own_request_ids() {
    let mut pending = PendingRequests::new();
    assert!(pending.submit(7));
    assert!(pending.submit(9));
    // the backend answers in the opposite order of arrival
    assert_eq!(pending.match_response(9), Some(1));
    assert!(pending.complete(9));
    assert_eq!(pending.match_response(7), Some(0));
    assert!(pending.complete(7));
    assert!(!pending.complete(7));
}

#[test]
fn duplicate_request_identifier_is_rejected() {
    let mut pending = PendingRequests::new();
    assert!(pending.submit(3));
    assert!(!pending.submit(3));
    assert!(pending.contains(3));
    assert!(!pending.contains(4));
    assert_eq!(pending.match_response(4), None);
}

#[test]
fn subscriptions_are_torn_down_on_disconnect() {
    let mut conn = ConnectionSubscriptions::new();
    assert!(!conn.subscribe(1), "an accepted connection is not yet serving subscriptions");
    conn.on_event(ConnectionEvent::Started);
    assert!(conn.subscribe(1));
    assert!(conn.subscribe(2));
    assert!(!conn.subscribe(1), "a subscription identifier in use is rejected");
    assert!(conn.holds(1) && conn.holds(2));
    conn.on_event(ConnectionEvent::EndOfStream);
    assert_eq!(conn.phase, ConnectionPhase::Closed);
    assert!(!conn.holds(1) && !conn.holds(2));
    assert_eq!(conn.subs.len(), 0);
}

#[test]
fn unsubscribing_keeps_the_other_subscriptions() {
    let mut conn = ConnectionSubscriptions::new();
    conn.on_event(ConnectionEvent::Started);
    assert!(conn.subscribe(10));
    assert!(conn.subscribe(20));
    assert!(conn.subscribe(30));
    assert!(conn.unsubscribe(20));
    assert!(!conn.unsubscribe(20));
    assert!(conn.holds(10));
    assert!(!conn.holds(20));
    assert!(conn.holds(30));
    assert_eq!(conn.phase, ConnectionPhase::Running);
}

#[test]
fn each_incoming_connection_gets_its_own_task() {
    let mut listener = IpcListenerState::new();
    assert!(listener.accepting);
    let a = listener.step(ListenerEvent::Incoming);
    assert!(matches!(a, ListenerAction::Spawn { id: 0 }));
    let b = listener.step(ListenerEvent::Incoming);
    assert!(matches!(b, ListenerAction::Spawn { id: 1 }));
    assert_eq!(listener.conns.len(), 2);
    assert_eq!(listener.conns[0], ConnectionPhase::Accepted);
    assert_eq!(listener.conns[1], ConnectionPhase::Accepted);
}

#[test]
fn closing_one_connection_leaves_siblings_untouched() {
    let mut listener = IpcListenerState::new();
    listener.step(ListenerEvent::Incoming);
    listener.step(ListenerEvent::Incoming);
    listener.step(ListenerEvent::Incoming);
    listener.step(ListenerEvent::Connection { id: 1, event: ConnectionEvent::Started });
    let a = listener.step(ListenerEvent::Connection {
        id: 0,
        event: ConnectionEvent::ProtocolError,
    });
    assert_eq!(a, ListenerAction::Continue);
    // the failed connection closed; its siblings and the accept loop go on
    assert_eq!(listener.conns[0], ConnectionPhase::Closed);
    assert_eq!(listener.conns[1], ConnectionPhase::Running);
    assert_eq!(listener.conns[2], ConnectionPhase::Accepted);
    assert!(listener.accepting);
}

#[test]
fn connections_complete_independently() {
    let n: usize = 5;
    let terminated: usize = 2;
    let mut listener = IpcListenerState::new();
    for _ in 0..n {
        listener.step(ListenerEvent::Incoming);
    }
    for id in 0..n {
        listener.step(ListenerEvent::Connection { id, event: ConnectionEvent::Started });
    }
    // connection 2 is torn down before the others have completed
    listener.step(ListenerEvent::Connection {
        id: terminated,
        event: ConnectionEvent::Shutdown,
    });
    for id in 0..n {
        if id != terminated {
            assert_eq!(listener.conns[id], ConnectionPhase::Running);
            listener.step(ListenerEvent::Connection { id, event: ConnectionEvent::Frame });
            listener.step(ListenerEvent::Connection {
                id,
                event: ConnectionEvent::EndOfStream,
            });
        }
    }
    // every connection ran to completion, the terminated one included
    for id in 0..n {
        assert_eq!(listener.conns[id], ConnectionPhase::Closed);
    }
    assert!(listener.accepting);
}

#[test]
fn accept_loop_stops_only_with_the_source() {
    let mut listener = IpcListenerState::new();
    listener.step(ListenerEvent::Incoming);
    listener.step(ListenerEvent::Connection { id: 0, event: ConnectionEvent::EndOfStream });
    assert!(listener.accepting);
    let a = listener.step(ListenerEvent::SourceEnded);
    assert_eq!(a, ListenerAction::Stop);
    assert!(!listener.accepting);
    // connections accepted earlier are left exactly as they were
    assert_eq!(listener.conns[0], ConnectionPhase::Closed);
}

#[test]
fn failed_endpoint_creation_is_a_recoverable_error() {
    match try_spawn_outcome(false) {
        Err(e) => assert_eq!(e, IpcError::EndpointCreation),
        Ok(_) => panic!("an endpoint that could not be created must be reported"),
    }
}

#[test]
fn created_endpoint_starts_an_empty_accept_loop() {
    match try_spawn_outcome(true) {
        Ok(listener) => {
            assert!(listener.accepting);
            assert_eq!(listener.conns.len(), 0);
        }
        Err(_) => panic!("a created endpoint must start the accept loop"),
    }
}

#[test]
fn bound_server_is_observable_before_it_serves() {
    let mut server = ServerLauncher::new();
    assert_eq!(server.stage, ServerStage::Configured);
    let bound = server.on_bind(BindOutcome::Bound);
    assert!(bound.is_ok());
    assert_eq!(server.stage, ServerStage::Bound);
    server.start();
    assert_eq!(server.stage, ServerStage::Serving);
}

#[test]
fn bind_failures_are_reported_not_fatal() {
    let mut server = ServerLauncher::new();
    let res = server.on_bind(BindOutcome::AddressInUse);
    assert_eq!(res, Err(BindError::AddressInUse));
    assert_eq!(server.stage, ServerStage::Failed);

    let mut server = ServerLauncher::new();
    let res = server.on_bind(BindOutcome::InvalidAddress);
    assert_eq!(res, Err(BindError::InvalidAddress));

    let mut server = ServerLauncher::new();
    let res = server.on_bind(BindOutcome::PermissionDenied);
    assert_eq!(res, Err(BindError::PermissionDenied));
}
