use iroh_bridge::config::{ConnectConfig, ALPN};
use iroh_bridge::connect::{
    check_connection, judge_connection, next_connect_step, next_run_step, next_session_step,
    CloseReason, ConnectProgress, ConnectStep, ConnectionEnd, ReconnectLoop, RunProgress, RunStep,
    SessionProgress, SessionStep, SessionWatch,
};
use iroh_bridge::error::{BridgeError, Failure, IoFault};
use iroh_bridge::keys::EndpointId;
use iroh_bridge::paths::UnixPath;

const SECOND: u128 = 1_000_000_000;

fn config(local_socket: Option<&str>) -> ConnectConfig {
    ConnectConfig {
        remote_endpoint_id: EndpointId::of_secret(&[2; 32]),
        local_socket: local_socket.map(UnixPath::new),
        secret_key: None,
        relay_urls: Vec::new(),
    }
}

fn finished(step: ConnectStep) -> Result<(), BridgeError> {
    match step {
        ConnectStep::Finish(outcome) => outcome,
        step => panic!("{step:?}"),
    }
}

fn after(outcome: Result<(), BridgeError>) -> RunStep {
    let mut p = RunProgress::new();
    p.bound = Some(Ok(()));
    p.attempt = Some(outcome);
    next_run_step(&config(Some("/run/x")), &p)
}

#[test]
fn protocol_name() {
    assert_eq!(&ALPN, b"herdr/iroh-bridge/0");
}

#[test]
fn attempt_accepts_one_client_and_cleans_up() {
    let config = config(Some("/run/bridge.sock"));
    let socket = UnixPath::new("/run/bridge.sock");
    let mut p = ConnectProgress::new();
    match next_connect_step(&config, &p) {
        ConnectStep::RemoveStale(path) => assert_eq!(path, socket),
        step => panic!("{step:?}"),
    }
    p.stale_removed = true;
    match next_connect_step(&config, &p) {
        ConnectStep::BindSocket(path) => assert_eq!(path, socket),
        step => panic!("{step:?}"),
    }
    p.bound = Some(Ok(()));
    match next_connect_step(&config, &p) {
        ConnectStep::Announce(text) => assert_eq!(text, "/run/bridge.sock"),
        step => panic!("{step:?}"),
    }
    p.announced = true;
    assert!(matches!(next_connect_step(&config, &p), ConnectStep::AcceptClient));
    p.accepted = Some(Ok(()));
    assert!(matches!(next_connect_step(&config, &p), ConnectStep::RunSession));
    p.session = Some(Ok(ConnectionEnd::ClosedByPeer));
    match next_connect_step(&config, &p) {
        ConnectStep::RemoveSocket(path) => assert_eq!(path, socket),
        step => panic!("{step:?}"),
    }
    p.socket_removed = true;
    assert!(finished(next_connect_step(&config, &p)).is_ok());
}

#[test]
fn attempt_needs_a_local_socket() {
    let error = finished(next_connect_step(&config(None), &ConnectProgress::new())).unwrap_err();
    assert_eq!(error.failure, Failure::LocalSocketRequired);
    assert_eq!(
        error.message(),
        "ConnectConfig.local_socket is required for standalone mode"
    );
}

#[test]
fn socket_that_cannot_be_bound_ends_the_attempt() {
    let mut p = ConnectProgress::new();
    p.stale_removed = true;
    p.bound = Some(Err(IoFault {
        kind: std::io::ErrorKind::PermissionDenied,
        text: "permission denied".to_string(),
    }));
    let error = finished(next_connect_step(&config(Some("/run/x")), &p)).unwrap_err();
    assert_eq!(error.failure, Failure::BindLocalSocket);
    assert_eq!(
        error.message(),
        "failed to bind local socket /run/x: permission denied"
    );
    assert_eq!(error.kind, Some(std::io::ErrorKind::PermissionDenied));
}

#[test]
fn client_that_cannot_be_accepted_ends_the_attempt() {
    let mut p = ConnectProgress::new();
    p.stale_removed = true;
    p.bound = Some(Ok(()));
    p.announced = true;
    p.accepted = Some(Err("too many files".to_string()));
    let error = finished(next_connect_step(&config(Some("/run/x")), &p)).unwrap_err();
    assert_eq!(error.failure, Failure::AcceptLocalClient);
    assert_eq!(
        error.message(),
        "failed to accept on local socket: too many files"
    );
}

#[test]
fn failed_session_leaves_the_socket_to_the_next_attempt() {
    let mut p = ConnectProgress::new();
    p.stale_removed = true;
    p.bound = Some(Ok(()));
    p.announced = true;
    p.accepted = Some(Ok(()));
    p.session = Some(Err(BridgeError::new(Failure::ConnectRemote, "no route")));
    let outcome = finished(next_connect_step(&config(Some("/run/x")), &p));
    assert_eq!(
        outcome.as_ref().unwrap_err().message(),
        "failed to connect to remote endpoint: no route"
    );
    assert!(matches!(after(outcome), RunStep::Wait { secs: 1 }));
}

#[test]
fn session_dials_the_configured_endpoint() {
    let config = config(None);
    let mut p = SessionProgress::new();
    match next_session_step(&config, &p) {
        SessionStep::Connect { remote, alpn } => {
            assert_eq!(remote, EndpointId::of_secret(&[2; 32]));
            assert_eq!(&alpn, b"herdr/iroh-bridge/0");
        }
        step => panic!("{step:?}"),
    }
    p.connected = Some(Ok(()));
    assert!(matches!(next_session_step(&config, &p), SessionStep::OpenStream));
    p.stream_opened = Some(Ok(()));
    assert!(matches!(next_session_step(&config, &p), SessionStep::Bridge));
    p.bridged = true;
    assert!(matches!(
        next_session_step(&config, &p),
        SessionStep::Finish(Ok(()))
    ));
}

#[test]
fn session_fails_without_a_connection_or_a_stream() {
    let config = config(None);
    let mut p = SessionProgress::new();
    p.connected = Some(Err("no address".to_string()));
    match next_session_step(&config, &p) {
        SessionStep::Finish(Err(error)) => {
            assert_eq!(error.failure, Failure::ConnectRemote);
            assert_eq!(
                error.message(),
                "failed to connect to remote endpoint: no address"
            );
        }
        step => panic!("{step:?}"),
    }
    p.connected = Some(Ok(()));
    p.stream_opened = Some(Err("timed out".to_string()));
    match next_session_step(&config, &p) {
        SessionStep::Finish(Err(error)) => {
            assert_eq!(error.failure, Failure::OpenStream);
            assert_eq!(
                error.message(),
                "failed to open bidirectional stream: timed out"
            );
        }
        step => panic!("{step:?}"),
    }
}

#[test]
fn dropped_connection_leads_to_another_attempt() {
    let config = config(Some("/run/x"));
    let mut p = ConnectProgress::new();
    p.stale_removed = true;
    p.bound = Some(Ok(()));
    p.announced = true;
    p.accepted = Some(Ok(()));
    p.session = Some(Ok(ConnectionEnd::Dropped("timed out".to_string())));
    let outcome = finished(next_connect_step(&config, &p));
    let error = outcome.as_ref().unwrap_err();
    assert_eq!(error.failure, Failure::ConnectionDropped);
    assert_eq!(error.message(), "connection dropped: timed out");
    assert!(matches!(after(outcome), RunStep::Wait { secs: 1 }));
}

#[test]
fn suspend_drops_the_session_and_leads_to_another_attempt() {
    let mut watch = SessionWatch::new(100 * SECOND);
    for seconds in 101..200 {
        assert!(watch.check(seconds * SECOND).is_none());
    }
    assert!(watch.check(219 * SECOND).is_none());
    assert!(watch.check(150 * SECOND).is_none());
    assert_eq!(watch.last_reading, 150 * SECOND);
    let end = watch.check(170 * SECOND + 1).unwrap();

    let mut p = ConnectProgress::new();
    p.stale_removed = true;
    p.bound = Some(Ok(()));
    p.announced = true;
    p.accepted = Some(Ok(()));
    p.session = Some(Ok(end));
    let outcome = finished(next_connect_step(&config(Some("/run/x")), &p));
    assert_eq!(
        outcome.as_ref().unwrap_err().message(),
        "connection dropped: wall clock jumped, system likely suspended"
    );
    assert!(matches!(after(outcome), RunStep::Wait { secs: 1 }));
}

#[test]
fn only_a_close_that_was_meant_is_no_drop() {
    assert!(matches!(judge_connection(None, ""), ConnectionEnd::Open));
    assert!(matches!(
        judge_connection(Some(CloseReason::ApplicationClosed), "closed by peer"),
        ConnectionEnd::ClosedByPeer
    ));
    assert!(matches!(
        judge_connection(Some(CloseReason::LocallyClosed), "closed"),
        ConnectionEnd::ClosedLocally
    ));
    for reason in [
        CloseReason::VersionMismatch,
        CloseReason::TransportError,
        CloseReason::ConnectionClosed,
        CloseReason::Reset,
        CloseReason::TimedOut,
        CloseReason::CidsExhausted,
    ] {
        match judge_connection(Some(reason), "timed out") {
            ConnectionEnd::Dropped(cause) => assert_eq!(cause, "timed out"),
            end => panic!("{end:?}"),
        }
    }
}

#[test]
fn lost_connection_ends_a_session_that_runs() {
    assert!(check_connection(None, "").is_none());
    assert!(check_connection(Some(CloseReason::ApplicationClosed), "closed by peer").is_none());
    assert!(check_connection(Some(CloseReason::LocallyClosed), "closed").is_none());
    let end = check_connection(Some(CloseReason::Reset), "reset by peer").unwrap();

    let mut p = ConnectProgress::new();
    p.stale_removed = true;
    p.bound = Some(Ok(()));
    p.announced = true;
    p.accepted = Some(Ok(()));
    p.session = Some(Ok(end));
    let outcome = finished(next_connect_step(&config(Some("/run/x")), &p));
    assert_eq!(
        outcome.as_ref().unwrap_err().message(),
        "connection dropped: reset by peer"
    );
    assert!(matches!(after(outcome), RunStep::Wait { secs: 1 }));
}

#[test]
fn connection_that_ends_on_purpose_ends_the_attempt_well() {
    let config = config(Some("/run/x"));
    for end in [
        ConnectionEnd::Open,
        ConnectionEnd::ClosedByPeer,
        ConnectionEnd::ClosedLocally,
    ] {
        let mut p = ConnectProgress::new();
        p.stale_removed = true;
        p.bound = Some(Ok(()));
        p.announced = true;
        p.accepted = Some(Ok(()));
        p.session = Some(Ok(end));
        assert!(matches!(
            next_connect_step(&config, &p),
            ConnectStep::RemoveSocket(_)
        ));
        p.socket_removed = true;
        let outcome = finished(next_connect_step(&config, &p));
        assert!(matches!(after(outcome), RunStep::Close));
    }
}

#[test]
fn attempts_go_on_until_one_ends_well() {
    let mut config = config(Some("/run/x"));
    config.secret_key = Some([7; 32]);
    config.relay_urls = vec!["https://relay.example".to_string()];
    let mut p = RunProgress::new();
    match next_run_step(&config, &p) {
        RunStep::Bind {
            secret_key,
            relay_urls,
        } => {
            assert_eq!(secret_key, Some([7; 32]));
            assert_eq!(relay_urls, vec!["https://relay.example".to_string()]);
        }
        step => panic!("{step:?}"),
    }
    p.bound = Some(Ok(()));
    for _ in 0..3 {
        assert!(matches!(next_run_step(&config, &p), RunStep::Attempt));
        p.attempt = Some(Err(BridgeError::new(Failure::ConnectRemote, "no route")));
        assert!(matches!(
            next_run_step(&config, &p),
            RunStep::Wait { secs: 1 }
        ));
        p.attempt = None;
    }
    assert!(matches!(next_run_step(&config, &p), RunStep::Attempt));
    p.attempt = Some(Ok(()));
    assert!(matches!(next_run_step(&config, &p), RunStep::Close));
    p.closed = true;
    assert!(matches!(
        next_run_step(&config, &p),
        RunStep::Finish(Ok(()))
    ));
}

#[test]
fn endpoint_that_cannot_be_bound_is_not_retried() {
    let mut p = RunProgress::new();
    p.bound = Some(Err("address in use".to_string()));
    match next_run_step(&config(Some("/run/x")), &p) {
        RunStep::Finish(Err(error)) => {
            assert_eq!(error.failure, Failure::BindEndpoint);
            assert_eq!(
                error.message(),
                "failed to bind iroh endpoint: address in use"
            );
        }
        step => panic!("{step:?}"),
    }
}

#[test]
fn clock_jump_is_noticed_beyond_twenty_seconds() {
    let mut reconnect = ReconnectLoop::new(5 * SECOND);
    assert_eq!(reconnect.begin_attempt(5 * SECOND), None);
    assert_eq!(reconnect.begin_attempt(25 * SECOND), None);
    assert_eq!(
        reconnect.begin_attempt(45 * SECOND + 1),
        Some(20 * SECOND + 1)
    );
    assert_eq!(reconnect.begin_attempt(46 * SECOND), None);
    assert_eq!(reconnect.begin_attempt(1), None);
    assert_eq!(reconnect.last_wall_clock, 1);
}
