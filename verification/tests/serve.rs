use iroh_bridge::bridge::{BridgeProgress, Direction, StreamErrorKind};
use iroh_bridge::config::ServeConfig;
use iroh_bridge::error::{BridgeError, Failure};
use iroh_bridge::keys::EndpointId;
use iroh_bridge::paths::UnixPath;
use iroh_bridge::serve::{
    next_accept_step, next_serve_step, AcceptProgress, AcceptStep, ServeProgress, ServeStep,
};

fn config() -> ServeConfig {
    ServeConfig {
        server_socket: UnixPath::new("/run/herdr.sock"),
        secret_key: Some([7; 32]),
        relay_urls: vec!["https://relay.example".to_string()],
    }
}

#[test]
fn serving_runs_until_the_signal() {
    let config = config();
    let mut p = ServeProgress::new();
    match next_serve_step(&config, &p) {
        ServeStep::Bind {
            secret_key,
            relay_urls,
        } => {
            assert_eq!(secret_key, Some([7; 32]));
            assert_eq!(relay_urls, vec!["https://relay.example".to_string()]);
        }
        step => panic!("{step:?}"),
    }
    p.bound = Some(Ok(EndpointId::of_secret(&[7; 32])));
    match next_serve_step(&config, &p) {
        ServeStep::Route {
            alpn,
            server_socket,
        } => {
            assert_eq!(&alpn, b"herdr/iroh-bridge/0");
            assert_eq!(server_socket, UnixPath::new("/run/herdr.sock"));
        }
        step => panic!("{step:?}"),
    }
    p.routed = true;
    match next_serve_step(&config, &p) {
        ServeStep::Announce(text) => {
            let public = iroh::SecretKey::from_bytes(&[7; 32]).public();
            assert_eq!(text, public.to_string());
        }
        step => panic!("{step:?}"),
    }
    p.announced = true;
    assert!(matches!(next_serve_step(&config, &p), ServeStep::AwaitSignal));
    p.signalled = Some(Ok(()));
    assert!(matches!(next_serve_step(&config, &p), ServeStep::Close));
    p.closed = true;
    assert!(matches!(
        next_serve_step(&config, &p),
        ServeStep::Finish(Ok(()))
    ));
}

#[test]
fn serving_fails_without_an_endpoint_or_a_signal() {
    let config = config();
    let mut p = ServeProgress::new();
    p.bound = Some(Err("address in use".to_string()));
    match next_serve_step(&config, &p) {
        ServeStep::Finish(Err(error)) => {
            assert_eq!(error.failure, Failure::BindEndpoint);
            assert_eq!(
                error.message(),
                "failed to bind iroh endpoint: address in use"
            );
        }
        step => panic!("{step:?}"),
    }
    p.bound = Some(Ok(EndpointId::of_secret(&[7; 32])));
    p.routed = true;
    p.announced = true;
    p.signalled = Some(Err("no handler".to_string()));
    match next_serve_step(&config, &p) {
        ServeStep::Finish(Err(error)) => {
            assert_eq!(error.failure, Failure::Signal);
            assert_eq!(error.message(), "signal error: no handler");
        }
        step => panic!("{step:?}"),
    }
}

#[test]
fn incoming_connection_is_bridged_to_the_server() {
    let socket = UnixPath::new("/run/herdr.sock");
    let mut p = AcceptProgress::new();
    assert!(matches!(next_accept_step(&socket, &p), AcceptStep::AcceptStream));
    p.stream_accepted = Some(true);
    match next_accept_step(&socket, &p) {
        AcceptStep::ConnectServer(path) => assert_eq!(path, socket),
        step => panic!("{step:?}"),
    }
    p.server_connected = Some(true);
    assert!(matches!(next_accept_step(&socket, &p), AcceptStep::Bridge));
    p.bridged = true;
    assert!(matches!(next_accept_step(&socket, &p), AcceptStep::Finish));
}

#[test]
fn incoming_connection_ends_without_a_stream_or_a_server() {
    let socket = UnixPath::new("/run/herdr.sock");
    let mut p = AcceptProgress::new();
    p.stream_accepted = Some(false);
    assert!(matches!(next_accept_step(&socket, &p), AcceptStep::Finish));
    p.stream_accepted = Some(true);
    p.server_connected = Some(false);
    assert!(matches!(next_accept_step(&socket, &p), AcceptStep::Finish));
}

#[test]
fn bridge_is_over_when_both_directions_ended() {
    for order in [
        [Direction::Up, Direction::Down],
        [Direction::Down, Direction::Up],
    ] {
        let mut bridge = BridgeProgress::new();
        assert!(!bridge.is_over());
        bridge.end(order[0], Ok(()));
        assert!(!bridge.is_over());
        bridge.end(order[0], Ok(()));
        assert!(!bridge.is_over());
        bridge.end(order[1], Err(StreamErrorKind::Other));
        assert!(bridge.is_over());
    }
}

#[test]
fn end_of_the_way_up_finishes_the_sending_side() {
    let mut bridge = BridgeProgress::new();
    assert!(bridge.end(Direction::Up, Ok(())).finish_send);
    assert!(bridge.end(Direction::Up, Err(StreamErrorKind::Other)).finish_send);
    assert!(!bridge.end(Direction::Down, Ok(())).finish_send);
}

#[test]
fn departures_are_no_reason_to_warn() {
    for direction in [Direction::Up, Direction::Down] {
        let mut bridge = BridgeProgress::new();
        assert!(!bridge.end(direction, Ok(())).warn);
        for kind in [
            StreamErrorKind::ConnectionReset,
            StreamErrorKind::BrokenPipe,
            StreamErrorKind::UnexpectedEof,
        ] {
            assert!(!bridge.end(direction, Err(kind)).warn);
        }
        assert!(bridge.end(direction, Err(StreamErrorKind::Other)).warn);
    }
}

#[test]
fn errors_keep_what_they_say() {
    let error = BridgeError::new(Failure::Io, "disk full");
    assert_eq!(error.message(), "disk full");
    assert_eq!(error.clone().message(), "disk full");
    assert_eq!(
        BridgeError::plain(Failure::NoConfigDir).message(),
        "cannot determine config directory"
    );
}
