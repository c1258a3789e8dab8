//! The serving side: an endpoint that listens until it is told to stop, and what each connection
//! to it comes to.

use vstd::prelude::*;
use vstd::string::StringSliceAdditionalSpecFns;

use crate::config::{ConnectConfig, ServeConfig, ALPN};
use crate::connect::{alpn_spelled_out, session_step_due, SessionProgress, SessionStep};
use crate::error::{fails_with, same_error, BridgeError, Failure};
use crate::hex::{hex_decode_inverts_encode, hex_decoded, hex_encode, hex_text};
use crate::keys::EndpointId;
use crate::paths::UnixPath;
use crate::relays::{copy_texts, lemma_texts_elementwise, texts};

verus! {

/// What is known so far while the endpoint is served. Each step that `next_serve_step` asks for
/// fills one of the blanks.
#[derive(Debug)]
pub struct ServeProgress {
    /// Whether the endpoint could be bound, and its id.
    pub bound: Option<Result<EndpointId, String>>,
    /// Whether connections are accepted.
    pub routed: bool,
    /// Whether the endpoint id was announced.
    pub announced: bool,
    /// Whether the termination signal came, or waiting for it failed.
    pub signalled: Option<Result<(), String>>,
    /// Whether the endpoint was closed.
    pub closed: bool,
}

impl ServeProgress {
    /// Nothing has happened yet.
    pub fn new() -> (p: ServeProgress)
        ensures
            p.bound is None && !p.routed && !p.announced && p.signalled is None && !p.closed,
    {
        ServeProgress {
            bound: None,
            routed: false,
            announced: false,
            signalled: None,
            closed: false,
        }
    }
}

/// What to do next while the endpoint is served.
#[derive(Debug)]
pub enum ServeStep {
    /// Bind the endpoint with this secret key, or a fresh one, and these relay URLs.
    Bind { secret_key: Option<[u8; 32]>, relay_urls: Vec<String> },
    /// Accept connections under this ALPN identifier, and bridge them to this socket.
    Route { alpn: [u8; 19], server_socket: UnixPath },
    /// Announce the endpoint id by this text, so that clients can connect.
    Announce(String),
    /// Wait for the termination signal.
    AwaitSignal,
    /// Close the endpoint.
    Close,
    /// It is over.
    Finish(Result<(), BridgeError>),
}

/// The endpoint is bound.
pub open spec fn endpoint_bound(p: ServeProgress) -> bool {
    p.bound matches Some(Ok(_))
}

/// The endpoint accepts connections, and clients can know of it.
pub open spec fn listening(p: ServeProgress) -> bool {
    endpoint_bound(p) && p.routed && p.announced
}

/// The termination signal came.
pub open spec fn told_to_stop(p: ServeProgress) -> bool {
    listening(p) && p.signalled matches Some(Ok(_))
}

/// When each step of serving is due. No two steps are due at once.
pub open spec fn serve_step_due(config: ServeConfig, p: ServeProgress, step: ServeStep) -> bool {
    match step {
        ServeStep::Bind { secret_key, relay_urls } => {
            &&& p.bound is None
            &&& secret_key == config.secret_key
            &&& texts(relay_urls@) == texts(config.relay_urls@)
        },
        ServeStep::Route { alpn, server_socket } => {
            &&& endpoint_bound(p)
            &&& !p.routed
            &&& alpn@ == ALPN@
            &&& server_socket@ == config.server_socket@
        },
        ServeStep::Announce(text) => {
            &&& p.bound matches Some(Ok(id))
            &&& text@ == hex_text(id@)
            &&& p.routed
            &&& !p.announced
        },
        ServeStep::AwaitSignal => listening(p) && p.signalled is None,
        ServeStep::Close => told_to_stop(p) && !p.closed,
        ServeStep::Finish(Ok(_)) => told_to_stop(p) && p.closed,
        ServeStep::Finish(Err(error)) => {
            ||| p.bound matches Some(Err(cause)) && fails_with(error, Failure::BindEndpoint, cause@)
            ||| listening(p) && (p.signalled matches Some(Err(cause)) && fails_with(
                error,
                Failure::Signal,
                cause@,
            ))
        },
    }
}

/// What to do next while the endpoint is served.
pub fn next_serve_step(config: &ServeConfig, p: &ServeProgress) -> (step: ServeStep)
    ensures
        serve_step_due(*config, *p, step),
{
    let id = match &p.bound {
        None => {
            return ServeStep::Bind {
                secret_key: config.secret_key,
                relay_urls: copy_texts(&config.relay_urls),
            };
        },
        Some(Err(cause)) => {
            return ServeStep::Finish(Err(BridgeError::new(Failure::BindEndpoint, cause.as_str())));
        },
        Some(Ok(id)) => id,
    };
    if !p.routed {
        return ServeStep::Route { alpn: ALPN, server_socket: config.server_socket.clone() };
    }
    if !p.announced {
        return ServeStep::Announce(hex_encode(id.to_bytes().as_slice()));
    }
    match &p.signalled {
        None => ServeStep::AwaitSignal,
        Some(Err(cause)) => ServeStep::Finish(
            Err(BridgeError::new(Failure::Signal, cause.as_str())),
        ),
        Some(Ok(_)) => if p.closed {
            ServeStep::Finish(Ok(()))
        } else {
            ServeStep::Close
        },
    }
}

/// What is known so far of an incoming connection. Each step that `next_accept_step` asks for
/// fills one of the blanks.
#[derive(Debug, Clone, Copy)]
pub struct AcceptProgress {
    /// Whether the peer opened a bidirectional stream.
    pub stream_accepted: Option<bool>,
    /// Whether the server's client socket could be reached.
    pub server_connected: Option<bool>,
    /// Whether the streams were bridged, to the end.
    pub bridged: bool,
}

impl AcceptProgress {
    /// Nothing has happened yet.
    pub fn new() -> (p: AcceptProgress)
        ensures
            p.stream_accepted is None && p.server_connected is None && !p.bridged,
    {
        AcceptProgress { stream_accepted: None, server_connected: None, bridged: false }
    }
}

/// What to do next with an incoming connection.
#[derive(Debug)]
pub enum AcceptStep {
    /// Accept a bidirectional stream.
    AcceptStream,
    /// Connect to the server's client socket at this path.
    ConnectServer(UnixPath),
    /// Bridge the stream to the server.
    Bridge,
    /// It is over. No connection is refused for what happened to it.
    Finish,
}

/// When each step of an incoming connection is due. No two steps are due at once.
pub open spec fn accept_step_due(
    server_socket: Seq<u8>,
    p: AcceptProgress,
    step: AcceptStep,
) -> bool {
    let both = p.stream_accepted == Some(true) && p.server_connected == Some(true);
    match step {
        AcceptStep::AcceptStream => p.stream_accepted is None,
        AcceptStep::ConnectServer(path) => {
            &&& p.stream_accepted == Some(true)
            &&& p.server_connected is None
            &&& path@ == server_socket
        },
        AcceptStep::Bridge => both && !p.bridged,
        AcceptStep::Finish => {
            ||| p.stream_accepted == Some(false)
            ||| p.stream_accepted == Some(true) && p.server_connected == Some(false)
            ||| both && p.bridged
        },
    }
}

/// What to do next with an incoming connection: one bidirectional stream is bridged to the
/// server's client socket. The server is not bothered where the peer opens no stream.
pub fn next_accept_step(server_socket: &UnixPath, p: &AcceptProgress) -> (step: AcceptStep)
    ensures
        accept_step_due(server_socket@, *p, step),
{
    match (p.stream_accepted, p.server_connected) {
        (None, _) => AcceptStep::AcceptStream,
        (Some(false), _) => AcceptStep::Finish,
        (Some(true), None) => AcceptStep::ConnectServer(server_socket.clone()),
        (Some(true), Some(false)) => AcceptStep::Finish,
        (Some(true), Some(true)) => if p.bridged {
            AcceptStep::Finish
        } else {
            AcceptStep::Bridge
        },
    }
}

/// Whether two steps are the same.
pub open spec fn same_serve_step(a: ServeStep, b: ServeStep) -> bool {
    match (a, b) {
        (
            ServeStep::Bind { secret_key: k, relay_urls: x },
            ServeStep::Bind { secret_key: l, relay_urls: y },
        ) => k == l && texts(x@) == texts(y@),
        (
            ServeStep::Route { alpn: v, server_socket: x },
            ServeStep::Route { alpn: w, server_socket: y },
        ) => v@ == w@ && x@ == y@,
        (ServeStep::Announce(x), ServeStep::Announce(y)) => x@ == y@,
        (ServeStep::AwaitSignal, ServeStep::AwaitSignal) => true,
        (ServeStep::Close, ServeStep::Close) => true,
        (ServeStep::Finish(Ok(_)), ServeStep::Finish(Ok(_))) => true,
        (ServeStep::Finish(Err(x)), ServeStep::Finish(Err(y))) => same_error(x, y),
        _ => false,
    }
}

/// Whether two steps are the same.
pub open spec fn same_accept_step(a: AcceptStep, b: AcceptStep) -> bool {
    match (a, b) {
        (AcceptStep::AcceptStream, AcceptStep::AcceptStream) => true,
        (AcceptStep::ConnectServer(x), AcceptStep::ConnectServer(y)) => x@ == y@,
        (AcceptStep::Bridge, AcceptStep::Bridge) => true,
        (AcceptStep::Finish, AcceptStep::Finish) => true,
        _ => false,
    }
}

/// Law: what is known decides the next step of serving. No two different steps are due at once.
pub proof fn serve_step_is_determined(
    config: ServeConfig,
    p: ServeProgress,
    a: ServeStep,
    b: ServeStep,
)
    requires
        serve_step_due(config, p, a),
        serve_step_due(config, p, b),
    ensures
        same_serve_step(a, b),
{
}

/// Law: what is known decides the next step of an incoming connection. No two different steps are
/// due at once.
pub proof fn accept_step_is_determined(
    server_socket: Seq<u8>,
    p: AcceptProgress,
    a: AcceptStep,
    b: AcceptStep,
)
    requires
        accept_step_due(server_socket, p, a),
        accept_step_due(server_socket, p, b),
    ensures
        same_accept_step(a, b),
{
}

/// Whether `p` holds the answer to what `step` asks for.
pub open spec fn serve_step_answered(p: ServeProgress, step: ServeStep) -> bool {
    match step {
        ServeStep::Bind { .. } => p.bound is Some,
        ServeStep::Route { .. } => p.routed,
        ServeStep::Announce(_) => p.announced,
        ServeStep::AwaitSignal => p.signalled is Some,
        ServeStep::Close => p.closed,
        ServeStep::Finish(_) => false,
    }
}

/// Whether `p` holds the answer to what `step` asks for.
pub open spec fn accept_step_answered(p: AcceptProgress, step: AcceptStep) -> bool {
    match step {
        AcceptStep::AcceptStream => p.stream_accepted is Some,
        AcceptStep::ConnectServer(_) => p.server_connected is Some,
        AcceptStep::Bridge => p.bridged,
        AcceptStep::Finish => false,
    }
}

/// Law: serving comes to an end with the signal. No step is asked for again once it was answered.
pub proof fn serve_step_is_new(config: ServeConfig, p: ServeProgress, step: ServeStep)
    requires
        serve_step_due(config, p, step),
    ensures
        !serve_step_answered(p, step),
{
}

/// Law: what is done about an incoming connection comes to an end. No step is asked for again once
/// it was answered.
pub proof fn accept_step_is_new(server_socket: Seq<u8>, p: AcceptProgress, step: AcceptStep)
    requires
        accept_step_due(server_socket, p, step),
    ensures
        !accept_step_answered(p, step),
{
}

/// Law: both sides speak the same protocol. What the connecting side dials under is what the
/// serving side accepts.
pub proof fn both_sides_agree_on_the_protocol(
    serve_config: ServeConfig,
    serve: ServeProgress,
    accepted: [u8; 19],
    server_socket: UnixPath,
    connect_config: ConnectConfig,
    session: SessionProgress,
    remote: EndpointId,
    dialed: [u8; 19],
)
    requires
        serve_step_due(
            serve_config,
            serve,
            ServeStep::Route { alpn: accepted, server_socket },
        ),
        session_step_due(connect_config, session, SessionStep::Connect { remote, alpn: dialed }),
    ensures
        accepted@ == dialed@,
{
}

/// Law: the endpoint id is announced only once connections are accepted, so that whoever learns
/// of it can connect. What is announced stands for the id and for no other.
pub proof fn announced_endpoint_accepts(config: ServeConfig, p: ServeProgress, text: String)
    requires
        serve_step_due(config, p, ServeStep::Announce(text)),
    ensures
        p.routed,
        p.bound matches Some(Ok(id)) && hex_decoded(text@) == Ok::<Seq<u8>, Seq<char>>(id@),
{
    hex_decode_inverts_encode(p.bound->0->Ok_0@);
}

/// Law: serving ends well only where the termination signal came and the endpoint was closed.
pub proof fn serving_ends_with_a_closed_endpoint(config: ServeConfig, p: ServeProgress)
    requires
        serve_step_due(config, p, ServeStep::Finish(Ok(()))),
    ensures
        told_to_stop(p),
        p.closed,
{
}

/// Law: serving goes through its steps in order. The endpoint is bound; connections are accepted
/// under the name of the protocol and bridged to the configured socket; the id that was bound is
/// announced; the signal is awaited; the endpoint is closed; and only then does it end well. A
/// binding or a wait that fails is the end, and the error says why.
pub proof fn serving_goes_in_order(config: ServeConfig, p: ServeProgress, step: ServeStep)
    requires
        serve_step_due(config, p, step),
    ensures
        match p.bound {
            None => step is Bind,
            Some(Err(cause)) => step matches ServeStep::Finish(Err(error)) && error.failure
                == Failure::BindEndpoint && error.cause@ == cause@ && error.kind is None,
            Some(Ok(id)) => if !p.routed {
                step matches ServeStep::Route { alpn, server_socket } && alpn@
                    == "herdr/iroh-bridge/0".spec_bytes() && server_socket@
                    == config.server_socket@
            } else if !p.announced {
                step matches ServeStep::Announce(text) && text@ == hex_text(id@)
            } else {
                match p.signalled {
                    None => step is AwaitSignal,
                    Some(Err(cause)) => step matches ServeStep::Finish(Err(error)) && error.failure
                        == Failure::Signal && error.cause@ == cause@ && error.kind is None,
                    Some(Ok(_)) => if p.closed {
                        step matches ServeStep::Finish(Ok(_))
                    } else {
                        step is Close
                    },
                }
            },
        },
{
    alpn_spelled_out();
}

/// Law: the serving side binds with the configured key and every configured relay URL, in order.
pub proof fn serving_binds_with_every_relay(
    config: ServeConfig,
    p: ServeProgress,
    secret_key: Option<[u8; 32]>,
    relay_urls: Vec<String>,
)
    requires
        serve_step_due(config, p, ServeStep::Bind { secret_key, relay_urls }),
    ensures
        secret_key == config.secret_key,
        relay_urls@.len() == config.relay_urls@.len(),
        forall|i: int|
            0 <= i < config.relay_urls@.len() ==> (#[trigger] relay_urls@[i])@
                == config.relay_urls@[i]@,
{
    lemma_texts_elementwise(relay_urls@, config.relay_urls@);
}

/// Law: an incoming connection goes through its steps in order. A stream is accepted; the server is
/// connected at the given socket; the two are bridged; and only then is it over, unless the stream
/// or the server could not be had.
pub proof fn incoming_connection_goes_in_order(
    server_socket: Seq<u8>,
    p: AcceptProgress,
    step: AcceptStep,
)
    requires
        accept_step_due(server_socket, p, step),
    ensures
        match p.stream_accepted {
            None => step is AcceptStream,
            Some(false) => step is Finish,
            Some(true) => match p.server_connected {
                None => step matches AcceptStep::ConnectServer(path) && path@ == server_socket,
                Some(false) => step is Finish,
                Some(true) => if p.bridged {
                    step is Finish
                } else {
                    step is Bridge
                },
            },
        },
{
}

/// Law: an incoming connection with a stream and a server is not given up before it was bridged.
pub proof fn incoming_connection_is_bridged(server_socket: Seq<u8>, p: AcceptProgress)
    requires
        accept_step_due(server_socket, p, AcceptStep::Finish),
        p.stream_accepted == Some(true),
        p.server_connected == Some(true),
    ensures
        p.bridged,
{
}

} // verus!
