//! The connecting side: one attempt after the other, until one ends well.

use vstd::prelude::*;
use vstd::string::{StringExecFns, StringSliceAdditionalSpecFns};
use vstd::utf8::is_ascii_chars_encode_utf8;

use crate::config::{ConnectConfig, ALPN};
use crate::error::{
    concat, fails_as, fails_plainly, fails_with, same_error, BridgeError, Failure, IoFault,
};
use crate::keys::EndpointId;
use crate::paths::{lossy_text, UnixPath};
use crate::relays::{copy_texts, lemma_texts_elementwise, texts};

verus! {

/// A jump of the clock beyond this, in nanoseconds, means that the system was suspended.
pub const FREEZE_THRESHOLD_NANOS: u128 = 20_000_000_000;

/// How often to read the clock and look at the connection while a session runs, in seconds.
pub const WATCH_INTERVAL_SECS: u64 = 1;

/// How long to wait before the next attempt, in seconds.
pub const RECONNECT_DELAY_SECS: u64 = 1;

/// What to do when an attempt has ended.
#[derive(Debug, Clone, Copy, PartialEq, Eq, Structural)]
pub enum AfterAttempt {
    /// Close the endpoint; there will be no other attempt.
    Close,
    /// Wait, then try again.
    RetryAfter { secs: u64 },
}

/// What follows an attempt that ended in this way.
pub open spec fn after_attempt(outcome: Result<(), BridgeError>) -> AfterAttempt {
    match outcome {
        Ok(()) => AfterAttempt::Close,
        Err(_) => AfterAttempt::RetryAfter { secs: RECONNECT_DELAY_SECS },
    }
}

/// The time between two readings of the clock, nothing where the second is not the later one.
pub open spec fn clock_jump(last: u128, now: u128) -> int {
    if now > last {
        now - last
    } else {
        0
    }
}

/// Whether `suspended` is what is reported of two readings of the clock: the jump, where it is
/// beyond the threshold.
pub open spec fn jump_reported(last: u128, now: u128, suspended: Option<u128>) -> bool {
    match suspended {
        Some(jump) => jump == clock_jump(last, now) && jump > FREEZE_THRESHOLD_NANOS,
        None => clock_jump(last, now) <= FREEZE_THRESHOLD_NANOS,
    }
}

/// The time between two readings of the clock.
fn jump_since(last: u128, now: u128) -> (jump: u128)
    ensures
        jump == clock_jump(last, now),
{
    if now > last {
        now - last
    } else {
        0
    }
}

/// The clock of the loop of attempts: its reading at the start of the latest one, in nanoseconds.
#[derive(Debug, Clone, Copy, PartialEq, Eq, Structural)]
pub struct ReconnectLoop {
    pub last_wall_clock: u128,
}

impl ReconnectLoop {
    /// The loop before its first attempt.
    pub fn new(now: u128) -> (reconnect: ReconnectLoop)
        ensures
            reconnect.last_wall_clock == now,
    {
        ReconnectLoop { last_wall_clock: now }
    }

    /// Starts an attempt. Where the clock jumped since the attempt before, the system was likely
    /// suspended: the result says by how much.
    pub fn begin_attempt(&mut self, now: u128) -> (suspended: Option<u128>)
        ensures
            final(self).last_wall_clock == now,
            jump_reported(old(self).last_wall_clock, now, suspended),
            suspended is Some <==> now > old(self).last_wall_clock + 20_000_000_000,
            suspended matches Some(jump) ==> jump == now - old(self).last_wall_clock,
    {
        let jump: u128 = jump_since(self.last_wall_clock, now);
        self.last_wall_clock = now;
        if jump > FREEZE_THRESHOLD_NANOS {
            Some(jump)
        } else {
            None
        }
    }
}

/// Whether the loop goes on after attempts that ended in these ways, one after the other.
pub open spec fn loop_goes_on(outcomes: Seq<Result<(), BridgeError>>) -> bool
    decreases outcomes.len(),
{
    outcomes.len() == 0 || (loop_goes_on(outcomes.drop_last()) && after_attempt(outcomes.last())
        != AfterAttempt::Close)
}

/// How long the loop has waited after these attempts, in seconds.
pub open spec fn loop_waits(outcomes: Seq<Result<(), BridgeError>>) -> nat
    decreases outcomes.len(),
{
    if outcomes.len() == 0 {
        0
    } else {
        loop_waits(outcomes.drop_last()) + match after_attempt(outcomes.last()) {
            AfterAttempt::Close => 0nat,
            AfterAttempt::RetryAfter { secs } => secs as nat,
        }
    }
}

/// Law: the loop goes on as long as every attempt fails, a second after each, however many there
/// were.
pub proof fn reconnects_until_success(outcomes: Seq<Result<(), BridgeError>>)
    ensures
        loop_goes_on(outcomes) <==> forall|i: int|
            0 <= i < outcomes.len() ==> #[trigger] outcomes[i] is Err,
        loop_goes_on(outcomes) ==> loop_waits(outcomes) == outcomes.len(),
    decreases outcomes.len(),
{
    if outcomes.len() > 0 {
        let before = outcomes.drop_last();
        reconnects_until_success(before);
        if loop_goes_on(outcomes) {
            assert forall|i: int| 0 <= i < outcomes.len() implies #[trigger] outcomes[i] is Err by {
                if i < before.len() {
                    assert(outcomes[i] == before[i]);
                }
            }
        }
        if forall|i: int| 0 <= i < outcomes.len() ==> #[trigger] outcomes[i] is Err {
            assert forall|i: int| 0 <= i < before.len() implies #[trigger] before[i] is Err by {
                assert(outcomes[i] == before[i]);
            }
            assert(outcomes[outcomes.len() - 1] is Err);
        }
    }
}

/// What is known so far while the connecting side runs. Each step that `next_run_step` asks for
/// fills one of the blanks, but for the wait, after which the attempt is blank again.
#[derive(Debug)]
pub struct RunProgress {
    /// Whether the endpoint could be bound.
    pub bound: Option<Result<(), String>>,
    /// How the latest attempt ended, until there was a wait.
    pub attempt: Option<Result<(), BridgeError>>,
    /// Whether the endpoint was closed.
    pub closed: bool,
}

impl RunProgress {
    /// Nothing has happened yet.
    pub fn new() -> (p: RunProgress)
        ensures
            p.bound is None && p.attempt is None && !p.closed,
    {
        RunProgress { bound: None, attempt: None, closed: false }
    }
}

/// What to do next while the connecting side runs.
#[derive(Debug)]
pub enum RunStep {
    /// Bind the endpoint with this secret key, or a fresh one, and these relay URLs.
    Bind { secret_key: Option<[u8; 32]>, relay_urls: Vec<String> },
    /// Make an attempt with the endpoint.
    Attempt,
    /// Wait, and forget the attempt that failed.
    Wait { secs: u64 },
    /// Close the endpoint.
    Close,
    /// It is over.
    Finish(Result<(), BridgeError>),
}

/// When each step of the connecting side is due. No two steps are due at once.
pub open spec fn run_step_due(config: ConnectConfig, p: RunProgress, step: RunStep) -> bool {
    let bound = p.bound matches Some(Ok(_));
    match step {
        RunStep::Bind { secret_key, relay_urls } => {
            &&& p.bound is None
            &&& secret_key == config.secret_key
            &&& texts(relay_urls@) == texts(config.relay_urls@)
        },
        RunStep::Attempt => bound && p.attempt is None,
        RunStep::Wait { secs } => bound && (p.attempt matches Some(outcome) && after_attempt(
            outcome,
        ) == (AfterAttempt::RetryAfter { secs })),
        RunStep::Close => bound && (p.attempt matches Some(outcome) && after_attempt(outcome)
            == AfterAttempt::Close) && !p.closed,
        RunStep::Finish(Ok(_)) => bound && (p.attempt matches Some(outcome) && after_attempt(
            outcome,
        ) == AfterAttempt::Close) && p.closed,
        RunStep::Finish(Err(error)) => p.bound matches Some(Err(cause)) && fails_with(
            error,
            Failure::BindEndpoint,
            cause@,
        ),
    }
}

/// What to do next while the connecting side runs: the endpoint is bound once, and attempts are
/// made with it until one ends well.
pub fn next_run_step(config: &ConnectConfig, p: &RunProgress) -> (step: RunStep)
    ensures
        run_step_due(*config, *p, step),
{
    match &p.bound {
        None => {
            return RunStep::Bind {
                secret_key: config.secret_key,
                relay_urls: copy_texts(&config.relay_urls),
            };
        },
        Some(Err(cause)) => {
            return RunStep::Finish(Err(BridgeError::new(Failure::BindEndpoint, cause.as_str())));
        },
        Some(Ok(_)) => {},
    }
    match &p.attempt {
        None => RunStep::Attempt,
        Some(Err(_)) => RunStep::Wait { secs: RECONNECT_DELAY_SECS },
        Some(Ok(_)) => if p.closed {
            RunStep::Finish(Ok(()))
        } else {
            RunStep::Close
        },
    }
}

/// Whether two steps are the same.
pub open spec fn same_run_step(a: RunStep, b: RunStep) -> bool {
    match (a, b) {
        (
            RunStep::Bind { secret_key: k, relay_urls: x },
            RunStep::Bind { secret_key: l, relay_urls: y },
        ) => k == l && texts(x@) == texts(y@),
        (RunStep::Attempt, RunStep::Attempt) => true,
        (RunStep::Wait { secs: x }, RunStep::Wait { secs: y }) => x == y,
        (RunStep::Close, RunStep::Close) => true,
        (RunStep::Finish(Ok(_)), RunStep::Finish(Ok(_))) => true,
        (RunStep::Finish(Err(x)), RunStep::Finish(Err(y))) => same_error(x, y),
        _ => false,
    }
}

/// Law: what is known decides the next step of the connecting side. No two different steps are due
/// at once.
pub proof fn run_step_is_determined(config: ConnectConfig, p: RunProgress, a: RunStep, b: RunStep)
    requires
        run_step_due(config, p, a),
        run_step_due(config, p, b),
    ensures
        same_run_step(a, b),
{
}

/// Law: the endpoint is bound once and kept for all attempts, and only an endpoint that could not
/// be bound fails the connecting side. A failed attempt never does.
pub proof fn endpoint_is_bound_once(config: ConnectConfig, p: RunProgress, step: RunStep)
    requires
        run_step_due(config, p, step),
    ensures
        step is Bind <==> p.bound is None,
        step matches RunStep::Finish(Err(_)) <==> p.bound matches Some(Err(_)),
{
}

/// Law: whatever came of the attempts before, a failed one is followed by a wait and another
/// attempt, and the connecting side ends well only where the latest did, with the endpoint closed.
pub proof fn failed_attempt_is_followed_by_another(
    config: ConnectConfig,
    p: RunProgress,
    step: RunStep,
    next: RunStep,
)
    requires
        p.bound matches Some(Ok(_)),
        run_step_due(config, p, step),
        run_step_due(config, (RunProgress { attempt: None, ..p }), next),
    ensures
        (p.attempt matches Some(Err(_))) ==> step == (RunStep::Wait { secs: RECONNECT_DELAY_SECS }),
        next is Attempt,
        step is Finish ==> (p.attempt matches Some(Ok(_))) && p.closed,
{
}

/// What has become of a connection.
#[derive(Debug)]
pub enum ConnectionEnd {
    /// It is still there.
    Open,
    /// The peer closed it.
    ClosedByPeer,
    /// This side closed it.
    ClosedLocally,
    /// Neither side meant it to end; the text gives the cause.
    Dropped(String),
}

/// Why a connection was closed, as QUIC tells it.
#[derive(Debug, Clone, Copy, PartialEq, Eq, Structural)]
pub enum CloseReason {
    /// The peer speaks no version that this side does.
    VersionMismatch,
    /// The peer violated the protocol.
    TransportError,
    /// The peer's QUIC stack aborted the connection by itself.
    ConnectionClosed,
    /// The peer closed the connection.
    ApplicationClosed,
    /// The peer no longer knows of the connection.
    Reset,
    /// Nothing was heard of the peer for too long.
    TimedOut,
    /// This side closed the connection.
    LocallyClosed,
    /// There are not enough connection identifiers.
    CidsExhausted,
}

/// Whether a connection was lost: it was closed, and neither side's application did that.
pub open spec fn is_lost(reason: Option<CloseReason>) -> bool {
    &&& reason is Some
    &&& reason != Some(CloseReason::ApplicationClosed)
    &&& reason != Some(CloseReason::LocallyClosed)
}

/// Whether `end` is what has become of a connection that was closed for `reason`, with this account
/// of it, or not closed at all. One that was lost counts as dropped.
pub open spec fn end_of_connection(
    reason: Option<CloseReason>,
    account: Seq<char>,
    end: ConnectionEnd,
) -> bool {
    match end {
        ConnectionEnd::Open => reason is None,
        ConnectionEnd::ClosedByPeer => reason == Some(CloseReason::ApplicationClosed),
        ConnectionEnd::ClosedLocally => reason == Some(CloseReason::LocallyClosed),
        ConnectionEnd::Dropped(cause) => is_lost(reason) && cause@ == account,
    }
}

/// What has become of a connection that was closed for `reason`, with this account of it, or not
/// closed at all.
pub fn judge_connection(reason: Option<CloseReason>, account: &str) -> (end: ConnectionEnd)
    ensures
        end_of_connection(reason, account@, end),
{
    match reason {
        None => ConnectionEnd::Open,
        Some(CloseReason::ApplicationClosed) => ConnectionEnd::ClosedByPeer,
        Some(CloseReason::LocallyClosed) => ConnectionEnd::ClosedLocally,
        Some(_) => ConnectionEnd::Dropped(account.to_owned()),
    }
}

/// Whether `end` is what a look at its connection makes of a session that runs. Where the
/// connection was lost the session has ended, though the client may not have noticed. Otherwise it
/// goes on: what is still under way may finish.
pub open spec fn loss_verdict(
    reason: Option<CloseReason>,
    account: Seq<char>,
    end: Option<ConnectionEnd>,
) -> bool {
    match end {
        None => !is_lost(reason),
        Some(ConnectionEnd::Dropped(cause)) => is_lost(reason) && cause@ == account,
        Some(_) => false,
    }
}

/// Takes a look at the connection of a session that runs: why it was closed, with this account of
/// it, if it was. Where it was lost the session is to be given up: the result says how it ended.
pub fn check_connection(reason: Option<CloseReason>, account: &str) -> (end: Option<ConnectionEnd>)
    ensures
        loss_verdict(reason, account@, end),
{
    match judge_connection(reason, account) {
        ConnectionEnd::Dropped(cause) => Some(ConnectionEnd::Dropped(cause)),
        _ => None,
    }
}

/// Watches the clock while a session runs: the latest reading, in nanoseconds.
#[derive(Debug, Clone, Copy, PartialEq, Eq, Structural)]
pub struct SessionWatch {
    pub last_reading: u128,
}

/// Whether `end` is what a reading of the clock makes of a session that runs. Where the clock
/// jumped the system was suspended: the connection is stale, and counts as dropped. Otherwise the
/// session goes on.
pub open spec fn watch_verdict(last: u128, now: u128, end: Option<ConnectionEnd>) -> bool {
    match end {
        None => clock_jump(last, now) <= FREEZE_THRESHOLD_NANOS,
        Some(ConnectionEnd::Dropped(cause)) => clock_jump(last, now) > FREEZE_THRESHOLD_NANOS
            && cause@ == "wall clock jumped, system likely suspended"@,
        Some(_) => false,
    }
}

impl SessionWatch {
    /// The watch at the start of a session.
    pub fn new(now: u128) -> (watch: SessionWatch)
        ensures
            watch.last_reading == now,
    {
        SessionWatch { last_reading: now }
    }

    /// Takes a reading of the clock. Where the clock jumped since the one before, the session is to
    /// be given up at once: the result says how it ended.
    pub fn check(&mut self, now: u128) -> (end: Option<ConnectionEnd>)
        ensures
            final(self).last_reading == now,
            watch_verdict(old(self).last_reading, now, end),
            end is Some <==> now > old(self).last_reading + 20_000_000_000,
    {
        let jump: u128 = jump_since(self.last_reading, now);
        self.last_reading = now;
        if jump > FREEZE_THRESHOLD_NANOS {
            Some(ConnectionEnd::Dropped("wall clock jumped, system likely suspended".to_owned()))
        } else {
            None
        }
    }
}

/// What is known so far in one attempt with a local socket. Each step that `next_connect_step`
/// asks for fills one of the blanks.
#[derive(Debug)]
pub struct ConnectProgress {
    /// Whether a stale socket file was removed, or at least tried.
    pub stale_removed: bool,
    /// Whether the local socket could be bound.
    pub bound: Option<Result<(), IoFault>>,
    /// Whether the local socket was announced.
    pub announced: bool,
    /// Whether a client could be accepted.
    pub accepted: Option<Result<(), String>>,
    /// How the session of that client ended, and what has become of its connection.
    pub session: Option<Result<ConnectionEnd, BridgeError>>,
    /// Whether the socket file was removed afterwards, or at least tried.
    pub socket_removed: bool,
}

impl ConnectProgress {
    /// Nothing has happened yet.
    pub fn new() -> (p: ConnectProgress)
        ensures
            !p.stale_removed && p.bound is None && !p.announced,
            p.accepted is None && p.session is None && !p.socket_removed,
    {
        ConnectProgress {
            stale_removed: false,
            bound: None,
            announced: false,
            accepted: None,
            session: None,
            socket_removed: false,
        }
    }
}

/// What to do next in one attempt with a local socket.
#[derive(Debug)]
pub enum ConnectStep {
    /// Remove what an earlier attempt left at this path; whether that works does not matter.
    RemoveStale(UnixPath),
    /// Bind the local socket at this path.
    BindSocket(UnixPath),
    /// Announce the local socket by this text.
    Announce(String),
    /// Accept one client on the local socket.
    AcceptClient,
    /// Run the session of the client, under a `SessionWatch` and with an eye on its connection.
    RunSession,
    /// Remove the socket file at this path; whether that works does not matter.
    RemoveSocket(UnixPath),
    /// It is over.
    Finish(Result<(), BridgeError>),
}

/// The local socket is bound.
pub open spec fn socket_bound(p: ConnectProgress) -> bool {
    p.stale_removed && p.bound matches Some(Ok(_))
}

/// A client was accepted.
pub open spec fn client_accepted(p: ConnectProgress) -> bool {
    socket_bound(p) && p.announced && p.accepted matches Some(Ok(_))
}

/// The session of the client ended well, and its connection was not dropped.
pub open spec fn session_done(p: ConnectProgress) -> bool {
    client_accepted(p) && (p.session matches Some(Ok(end)) && !(end is Dropped))
}

/// Why binding the local socket failed: the socket, then the cause.
pub open spec fn bind_fault(socket: Seq<u8>, cause: Seq<char>) -> Seq<char> {
    lossy_text(socket) + ": "@ + cause
}

/// When each step of an attempt with a local socket is due.
pub open spec fn socket_step_due(socket: Seq<u8>, p: ConnectProgress, step: ConnectStep) -> bool {
    match step {
        ConnectStep::RemoveStale(path) => !p.stale_removed && path@ == socket,
        ConnectStep::BindSocket(path) => p.stale_removed && p.bound is None && path@ == socket,
        ConnectStep::Announce(text) => socket_bound(p) && !p.announced && text@ == lossy_text(
            socket,
        ),
        ConnectStep::AcceptClient => socket_bound(p) && p.announced && p.accepted is None,
        ConnectStep::RunSession => client_accepted(p) && p.session is None,
        ConnectStep::RemoveSocket(path) => session_done(p) && !p.socket_removed && path@ == socket,
        ConnectStep::Finish(Ok(_)) => session_done(p) && p.socket_removed,
        ConnectStep::Finish(Err(error)) => {
            ||| p.stale_removed && (p.bound matches Some(Err(fault)) && fails_as(
                error,
                Failure::BindLocalSocket,
                bind_fault(socket, fault.text@),
                fault.kind,
            ))
            ||| socket_bound(p) && p.announced && (p.accepted matches Some(Err(cause))
                && fails_with(error, Failure::AcceptLocalClient, cause@))
            ||| client_accepted(p) && (p.session matches Some(Err(cause)) && same_error(
                error,
                cause,
            ))
            ||| client_accepted(p) && (p.session matches Some(Ok(ConnectionEnd::Dropped(cause)))
                && fails_with(error, Failure::ConnectionDropped, cause@))
        },
    }
}

/// When each step of an attempt is due. Without a local socket the attempt has failed. No two
/// steps are due at once.
pub open spec fn connect_step_due(
    config: ConnectConfig,
    p: ConnectProgress,
    step: ConnectStep,
) -> bool {
    match config.local_socket {
        None => step matches ConnectStep::Finish(Err(error)) && fails_plainly(
            error,
            Failure::LocalSocketRequired,
        ),
        Some(socket) => socket_step_due(socket@, p, step),
    }
}

/// What to do next in one attempt with a local socket: one client is accepted on it, and bridged
/// to the remote endpoint. A session whose connection was dropped fails the attempt. The socket
/// file goes when the session has ended well; what a failed attempt leaves behind goes at the start
/// of the next.
pub fn next_connect_step(config: &ConnectConfig, p: &ConnectProgress) -> (step: ConnectStep)
    ensures
        connect_step_due(*config, *p, step),
{
    let socket = match &config.local_socket {
        Some(socket) => socket,
        None => {
            return ConnectStep::Finish(Err(BridgeError::plain(Failure::LocalSocketRequired)));
        },
    };
    if !p.stale_removed {
        return ConnectStep::RemoveStale(socket.clone());
    }
    match &p.bound {
        None => {
            return ConnectStep::BindSocket(socket.clone());
        },
        Some(Err(fault)) => {
            let socket_text = socket.display();
            let mut cause = concat(socket_text.as_str(), ": ");
            cause.append(fault.text.as_str());
            return ConnectStep::Finish(
                Err(
                    BridgeError {
                        failure: Failure::BindLocalSocket,
                        cause,
                        kind: Some(fault.kind),
                    },
                ),
            );
        },
        Some(Ok(_)) => {},
    }
    if !p.announced {
        return ConnectStep::Announce(socket.display());
    }
    match &p.accepted {
        None => {
            return ConnectStep::AcceptClient;
        },
        Some(Err(cause)) => {
            return ConnectStep::Finish(
                Err(BridgeError::new(Failure::AcceptLocalClient, cause.as_str())),
            );
        },
        Some(Ok(_)) => {},
    }
    match &p.session {
        None => ConnectStep::RunSession,
        Some(Err(error)) => ConnectStep::Finish(Err(error.clone())),
        Some(Ok(ConnectionEnd::Dropped(cause))) => ConnectStep::Finish(
            Err(BridgeError::new(Failure::ConnectionDropped, cause.as_str())),
        ),
        Some(Ok(_)) => if p.socket_removed {
            ConnectStep::Finish(Ok(()))
        } else {
            ConnectStep::RemoveSocket(socket.clone())
        },
    }
}

/// Whether two steps are the same.
pub open spec fn same_connect_step(a: ConnectStep, b: ConnectStep) -> bool {
    match (a, b) {
        (ConnectStep::RemoveStale(x), ConnectStep::RemoveStale(y)) => x@ == y@,
        (ConnectStep::BindSocket(x), ConnectStep::BindSocket(y)) => x@ == y@,
        (ConnectStep::Announce(x), ConnectStep::Announce(y)) => x@ == y@,
        (ConnectStep::AcceptClient, ConnectStep::AcceptClient) => true,
        (ConnectStep::RunSession, ConnectStep::RunSession) => true,
        (ConnectStep::RemoveSocket(x), ConnectStep::RemoveSocket(y)) => x@ == y@,
        (ConnectStep::Finish(Ok(_)), ConnectStep::Finish(Ok(_))) => true,
        (ConnectStep::Finish(Err(x)), ConnectStep::Finish(Err(y))) => same_error(x, y),
        _ => false,
    }
}

/// Law: what is known decides the next step of an attempt. No two different steps are due at once.
pub proof fn connect_step_is_determined(
    config: ConnectConfig,
    p: ConnectProgress,
    a: ConnectStep,
    b: ConnectStep,
)
    requires
        connect_step_due(config, p, a),
        connect_step_due(config, p, b),
    ensures
        same_connect_step(a, b),
{
    match (a, b) {
        (ConnectStep::Finish(Err(x)), ConnectStep::Finish(Err(y))) => {
            assert(x.cause@ =~= y.cause@);
        },
        _ => {},
    }
}

/// Whether `p` holds the answer to what `step` asks for.
pub open spec fn connect_step_answered(p: ConnectProgress, step: ConnectStep) -> bool {
    match step {
        ConnectStep::RemoveStale(_) => p.stale_removed,
        ConnectStep::BindSocket(_) => p.bound is Some,
        ConnectStep::Announce(_) => p.announced,
        ConnectStep::AcceptClient => p.accepted is Some,
        ConnectStep::RunSession => p.session is Some,
        ConnectStep::RemoveSocket(_) => p.socket_removed,
        ConnectStep::Finish(_) => false,
    }
}

/// Law: an attempt comes to an end. No step is asked for again once it was answered.
pub proof fn connect_step_is_new(config: ConnectConfig, p: ConnectProgress, step: ConnectStep)
    requires
        connect_step_due(config, p, step),
    ensures
        !connect_step_answered(p, step),
{
}

/// Law: every attempt clears the way for itself. Whatever happened before, the socket is bound
/// only once a stale socket file was removed.
pub proof fn stale_socket_goes_first(config: ConnectConfig, p: ConnectProgress, path: UnixPath)
    requires
        connect_step_due(config, p, ConnectStep::BindSocket(path)),
    ensures
        p.stale_removed,
        config.local_socket matches Some(socket) && path@ == socket@,
{
}

/// Law: an attempt ends well only where its client's session did, and the socket file is gone.
pub proof fn success_removes_the_socket(config: ConnectConfig, p: ConnectProgress)
    requires
        connect_step_due(config, p, ConnectStep::Finish(Ok(()))),
    ensures
        config.local_socket is Some,
        session_done(p),
        p.socket_removed,
{
}

/// What is known so far in a session: the client's stream on one side, the remote endpoint on the
/// other. Each step that `next_session_step` asks for fills one of the blanks.
#[derive(Debug)]
pub struct SessionProgress {
    /// Whether the remote endpoint could be reached.
    pub connected: Option<Result<(), String>>,
    /// Whether a bidirectional stream could be opened.
    pub stream_opened: Option<Result<(), String>>,
    /// Whether the streams were bridged, until both directions had ended.
    pub bridged: bool,
}

impl SessionProgress {
    /// Nothing has happened yet.
    pub fn new() -> (p: SessionProgress)
        ensures
            p.connected is None && p.stream_opened is None && !p.bridged,
    {
        SessionProgress { connected: None, stream_opened: None, bridged: false }
    }
}

/// What to do next in a session.
#[derive(Debug)]
pub enum SessionStep {
    /// Connect to the remote endpoint under this ALPN identifier.
    Connect { remote: EndpointId, alpn: [u8; 19] },
    /// Open a bidirectional stream.
    OpenStream,
    /// Bridge the client's stream to the bidirectional stream.
    Bridge,
    /// It is over.
    Finish(Result<(), BridgeError>),
}

/// When each step of a session is due. No two steps are due at once.
pub open spec fn session_step_due(
    config: ConnectConfig,
    p: SessionProgress,
    step: SessionStep,
) -> bool {
    let connected = p.connected matches Some(Ok(_));
    let opened = connected && p.stream_opened matches Some(Ok(_));
    match step {
        SessionStep::Connect { remote, alpn } => p.connected is None && remote
            == config.remote_endpoint_id && alpn@ == ALPN@,
        SessionStep::OpenStream => connected && p.stream_opened is None,
        SessionStep::Bridge => opened && !p.bridged,
        SessionStep::Finish(Ok(_)) => opened && p.bridged,
        SessionStep::Finish(Err(error)) => {
            ||| p.connected matches Some(Err(cause)) && fails_with(
                error,
                Failure::ConnectRemote,
                cause@,
            )
            ||| connected && (p.stream_opened matches Some(Err(cause)) && fails_with(
                error,
                Failure::OpenStream,
                cause@,
            ))
        },
    }
}

/// What to do next in a session. Once the streams were bridged the session ends well, however they
/// ended.
pub fn next_session_step(config: &ConnectConfig, p: &SessionProgress) -> (step: SessionStep)
    ensures
        session_step_due(*config, *p, step),
{
    match &p.connected {
        None => {
            return SessionStep::Connect { remote: config.remote_endpoint_id, alpn: ALPN };
        },
        Some(Err(cause)) => {
            return SessionStep::Finish(
                Err(BridgeError::new(Failure::ConnectRemote, cause.as_str())),
            );
        },
        Some(Ok(_)) => {},
    }
    match &p.stream_opened {
        None => SessionStep::OpenStream,
        Some(Err(cause)) => SessionStep::Finish(
            Err(BridgeError::new(Failure::OpenStream, cause.as_str())),
        ),
        Some(Ok(_)) => if p.bridged {
            SessionStep::Finish(Ok(()))
        } else {
            SessionStep::Bridge
        },
    }
}

/// Whether two steps are the same.
pub open spec fn same_session_step(a: SessionStep, b: SessionStep) -> bool {
    match (a, b) {
        (
            SessionStep::Connect { remote: x, alpn: v },
            SessionStep::Connect { remote: y, alpn: w },
        ) => x == y && v@ == w@,
        (SessionStep::OpenStream, SessionStep::OpenStream) => true,
        (SessionStep::Bridge, SessionStep::Bridge) => true,
        (SessionStep::Finish(Ok(_)), SessionStep::Finish(Ok(_))) => true,
        (SessionStep::Finish(Err(x)), SessionStep::Finish(Err(y))) => same_error(x, y),
        _ => false,
    }
}

/// Law: what is known decides the next step of a session. No two different steps are due at once.
pub proof fn session_step_is_determined(
    config: ConnectConfig,
    p: SessionProgress,
    a: SessionStep,
    b: SessionStep,
)
    requires
        session_step_due(config, p, a),
        session_step_due(config, p, b),
    ensures
        same_session_step(a, b),
{
}

/// Whether `p` holds the answer to what `step` asks for.
pub open spec fn session_step_answered(p: SessionProgress, step: SessionStep) -> bool {
    match step {
        SessionStep::Connect { .. } => p.connected is Some,
        SessionStep::OpenStream => p.stream_opened is Some,
        SessionStep::Bridge => p.bridged,
        SessionStep::Finish(_) => false,
    }
}

/// Law: a session comes to an end. No step is asked for again once it was answered.
pub proof fn session_step_is_new(config: ConnectConfig, p: SessionProgress, step: SessionStep)
    requires
        session_step_due(config, p, step),
    ensures
        !session_step_answered(p, step),
{
}

/// Law: if the connection drops, the bridge reconnects. The attempt fails, and after the delay
/// there is another one.
pub proof fn dropped_connection_is_retried(
    config: ConnectConfig,
    attempt: ConnectProgress,
    step: ConnectStep,
)
    requires
        client_accepted(attempt),
        attempt.session matches Some(Ok(ConnectionEnd::Dropped(_))),
        connect_step_due(config, attempt, step),
    ensures
        step matches ConnectStep::Finish(outcome) && after_attempt(outcome)
            == (AfterAttempt::RetryAfter { secs: RECONNECT_DELAY_SECS }),
{
}

/// Law: a suspend is survived. If the clock jumps beyond the threshold while a session runs, the
/// stale connection is given up at that reading, the attempt fails, and after the delay there is
/// another one.
pub proof fn suspended_session_is_retried(
    config: ConnectConfig,
    last: u128,
    now: u128,
    verdict: Option<ConnectionEnd>,
    attempt: ConnectProgress,
    step: ConnectStep,
)
    requires
        clock_jump(last, now) > FREEZE_THRESHOLD_NANOS,
        watch_verdict(last, now, verdict),
        client_accepted(attempt),
        verdict matches Some(end) ==> attempt.session == Some(
            Ok::<ConnectionEnd, BridgeError>(end),
        ),
        connect_step_due(config, attempt, step),
    ensures
        verdict matches Some(ConnectionEnd::Dropped(_)),
        step matches ConnectStep::Finish(outcome) && after_attempt(outcome)
            == (AfterAttempt::RetryAfter { secs: RECONNECT_DELAY_SECS }),
{
    dropped_connection_is_retried(config, attempt, step);
}

/// Law: an attempt returns on connection loss, though the client is idle. Where a look at the
/// connection finds it lost, the attempt fails, and after the delay there is another one.
pub proof fn lost_connection_is_retried(
    config: ConnectConfig,
    reason: Option<CloseReason>,
    account: Seq<char>,
    verdict: Option<ConnectionEnd>,
    attempt: ConnectProgress,
    step: ConnectStep,
)
    requires
        is_lost(reason),
        loss_verdict(reason, account, verdict),
        client_accepted(attempt),
        verdict matches Some(end) ==> attempt.session == Some(
            Ok::<ConnectionEnd, BridgeError>(end),
        ),
        connect_step_due(config, attempt, step),
    ensures
        verdict matches Some(ConnectionEnd::Dropped(_)),
        step matches ConnectStep::Finish(outcome) && after_attempt(outcome)
            == (AfterAttempt::RetryAfter { secs: RECONNECT_DELAY_SECS }),
{
    dropped_connection_is_retried(config, attempt, step);
}

/// Law: a session is not given up for running long. As long as no two readings in a row lie further
/// apart than the threshold, the session goes on.
pub proof fn steady_clock_ends_no_session(readings: Seq<u128>, verdicts: Seq<Option<ConnectionEnd>>)
    requires
        verdicts.len() + 1 == readings.len(),
        forall|i: int|
            0 <= i < verdicts.len() ==> watch_verdict(
                readings[i],
                readings[i + 1],
                #[trigger] verdicts[i],
            ),
        forall|i: int|
            0 <= i < verdicts.len() ==> #[trigger] clock_jump(readings[i], readings[i + 1])
                <= FREEZE_THRESHOLD_NANOS,
    ensures
        forall|i: int| 0 <= i < verdicts.len() ==> #[trigger] verdicts[i] is None,
{
    assert forall|i: int| 0 <= i < verdicts.len() implies #[trigger] verdicts[i] is None by {
        assert(clock_jump(readings[i], readings[i + 1]) <= FREEZE_THRESHOLD_NANOS);
    }
}

/// Law: a session that ends as it should ends the loop. Once the socket file is gone the attempt
/// has ended well, and the endpoint is closed.
pub proof fn orderly_session_ends_the_loop(
    config: ConnectConfig,
    attempt: ConnectProgress,
    step: ConnectStep,
)
    requires
        config.local_socket is Some,
        session_done(attempt),
        attempt.socket_removed,
        connect_step_due(config, attempt, step),
    ensures
        step matches ConnectStep::Finish(outcome) && after_attempt(outcome) == AfterAttempt::Close,
{
}

/// Law: without a local socket every attempt fails, and the loop goes on.
pub proof fn missing_socket_is_retried(
    config: ConnectConfig,
    attempt: ConnectProgress,
    step: ConnectStep,
)
    requires
        config.local_socket is None,
        connect_step_due(config, attempt, step),
    ensures
        step matches ConnectStep::Finish(outcome) && after_attempt(outcome)
            == (AfterAttempt::RetryAfter { secs: RECONNECT_DELAY_SECS }),
{
}

/// Law: the system counts as suspended exactly where the second of two readings lies more than
/// twenty seconds behind the first. A session that runs is then dropped, and the loop reports the
/// time between the readings.
pub proof fn suspend_is_a_jump_beyond_twenty_seconds(
    last: u128,
    now: u128,
    end: Option<ConnectionEnd>,
    suspended: Option<u128>,
)
    requires
        watch_verdict(last, now, end),
        jump_reported(last, now, suspended),
    ensures
        end is Some <==> now > last + 20_000_000_000,
        end matches Some(end) ==> end is Dropped,
        suspended is Some <==> now > last + 20_000_000_000,
        suspended matches Some(jump) ==> jump == now - last,
{
}

/// Law: the longer the clock was away, the more it is a suspend. What is noticed at one reading is
/// noticed at every later one, and at every reading as far from an earlier start.
pub proof fn longer_suspends_are_noticed_too(
    last: u128,
    now: u128,
    end: Option<ConnectionEnd>,
    earlier: u128,
    later: u128,
    other: Option<ConnectionEnd>,
)
    requires
        watch_verdict(last, now, end),
        watch_verdict(earlier, later, other),
        earlier <= last,
        now <= later,
        end is Some,
    ensures
        other matches Some(ConnectionEnd::Dropped(_)),
{
}

/// Law: the clock is read so often that a session that just runs on is never taken for a suspend.
pub proof fn watch_is_closer_than_the_threshold(last: u128, now: u128, end: Option<ConnectionEnd>)
    requires
        watch_verdict(last, now, end),
        now <= last + WATCH_INTERVAL_SECS * 1_000_000_000,
    ensures
        end is None,
{
}

/// Law: what follows an attempt depends on nothing but whether it ended well: the endpoint is
/// closed after one that did, and another attempt is made a second after one that did not.
pub proof fn attempt_is_retried_after_a_second(outcome: Result<(), BridgeError>)
    ensures
        after_attempt(outcome) == if outcome is Ok {
            AfterAttempt::Close
        } else {
            AfterAttempt::RetryAfter { secs: 1 }
        },
{
}

/// Law: the connecting side goes through its steps in order. It binds; a failed binding is the end;
/// an attempt follows; a failed one is followed by a wait of a second; after one that ended well
/// the endpoint is closed, and then it is over.
pub proof fn run_goes_in_order(config: ConnectConfig, p: RunProgress, step: RunStep)
    requires
        run_step_due(config, p, step),
    ensures
        match p.bound {
            None => step is Bind,
            Some(Err(cause)) => step matches RunStep::Finish(Err(error)) && error.failure
                == Failure::BindEndpoint && error.cause@ == cause@ && error.kind is None,
            Some(Ok(_)) => match p.attempt {
                None => step is Attempt,
                Some(Err(_)) => step matches RunStep::Wait { secs } && secs == 1,
                Some(Ok(_)) => if p.closed {
                    step matches RunStep::Finish(Ok(_))
                } else {
                    step is Close
                },
            },
        },
{
}

/// Law: the connecting side binds with the configured key and every configured relay URL, in order.
pub proof fn run_binds_with_every_relay(
    config: ConnectConfig,
    p: RunProgress,
    secret_key: Option<[u8; 32]>,
    relay_urls: Vec<String>,
)
    requires
        run_step_due(config, p, RunStep::Bind { secret_key, relay_urls }),
    ensures
        secret_key == config.secret_key,
        relay_urls@.len() == config.relay_urls@.len(),
        forall|i: int|
            0 <= i < config.relay_urls@.len() ==> (#[trigger] relay_urls@[i])@
                == config.relay_urls@[i]@,
{
    lemma_texts_elementwise(relay_urls@, config.relay_urls@);
}

/// Law: an attempt goes through its steps in order. Without a local socket it has failed. With one,
/// what is left at its path is removed; the socket is bound, announced, and one client accepted;
/// its session is run; and once that ended without a drop the socket file is removed. The first
/// step that fails is the end, and its error says why.
pub proof fn attempt_goes_in_order(config: ConnectConfig, p: ConnectProgress, step: ConnectStep)
    requires
        connect_step_due(config, p, step),
    ensures
        match config.local_socket {
            None => step matches ConnectStep::Finish(Err(error)) && error.failure
                == Failure::LocalSocketRequired && error.cause@.len() == 0 && error.kind is None,
            Some(socket) => if !p.stale_removed {
                step matches ConnectStep::RemoveStale(path) && path@ == socket@
            } else if p.bound is None {
                step matches ConnectStep::BindSocket(path) && path@ == socket@
            } else if let Some(Err(fault)) = p.bound {
                step matches ConnectStep::Finish(Err(error)) && error.failure
                    == Failure::BindLocalSocket && error.cause@ == lossy_text(socket@) + ": "@
                    + fault.text@ && error.kind == Some(fault.kind)
            } else if !p.announced {
                step matches ConnectStep::Announce(text) && text@ == lossy_text(socket@)
            } else if p.accepted is None {
                step is AcceptClient
            } else if let Some(Err(cause)) = p.accepted {
                step matches ConnectStep::Finish(Err(error)) && error.failure
                    == Failure::AcceptLocalClient && error.cause@ == cause@ && error.kind is None
            } else {
                match p.session {
                    None => step is RunSession,
                    Some(Err(cause)) => step matches ConnectStep::Finish(Err(error))
                        && error.failure == cause.failure && error.cause@ == cause.cause@
                        && error.kind == cause.kind,
                    Some(Ok(ConnectionEnd::Dropped(cause))) => step matches ConnectStep::Finish(
                        Err(error),
                    ) && error.failure == Failure::ConnectionDropped && error.cause@ == cause@
                        && error.kind is None,
                    Some(Ok(_)) => if p.socket_removed {
                        step matches ConnectStep::Finish(Ok(_))
                    } else {
                        step matches ConnectStep::RemoveSocket(path) && path@ == socket@
                    },
                }
            },
        },
{
}

/// Law: an attempt depends on the local socket alone, and on nothing else that is configured.
pub proof fn attempt_depends_on_the_socket_alone(
    config: ConnectConfig,
    other: ConnectConfig,
    p: ConnectProgress,
    step: ConnectStep,
)
    requires
        config.local_socket is Some <==> other.local_socket is Some,
        config.local_socket is Some ==> config.local_socket->0@ == other.local_socket->0@,
    ensures
        connect_step_due(config, p, step) <==> connect_step_due(other, p, step),
{
}

/// Law: an attempt that ends well has served a client: the socket was bound and announced, a client
/// was accepted, and its session ran and was not dropped.
pub proof fn successful_attempt_has_served_a_client(config: ConnectConfig, p: ConnectProgress)
    requires
        connect_step_due(config, p, ConnectStep::Finish(Ok(()))),
    ensures
        p.stale_removed && p.announced && p.socket_removed,
        p.bound matches Some(Ok(_)),
        p.accepted matches Some(Ok(_)),
        p.session matches Some(Ok(end)) && !(end is Dropped),
{
}

/// Law: a connection counts as dropped for exactly the six reasons for which neither side's
/// application closed it, and the account of it is kept. A session that runs is given up for
/// exactly these.
pub proof fn connection_is_dropped_unless_it_was_closed(
    reason: Option<CloseReason>,
    account: Seq<char>,
    end: ConnectionEnd,
    verdict: Option<ConnectionEnd>,
)
    requires
        end_of_connection(reason, account, end),
        loss_verdict(reason, account, verdict),
    ensures
        match reason {
            None => end is Open && verdict is None,
            Some(CloseReason::ApplicationClosed) => end is ClosedByPeer && verdict is None,
            Some(CloseReason::LocallyClosed) => end is ClosedLocally && verdict is None,
            Some(CloseReason::VersionMismatch)
            | Some(CloseReason::TransportError)
            | Some(CloseReason::ConnectionClosed)
            | Some(CloseReason::Reset)
            | Some(CloseReason::TimedOut)
            | Some(CloseReason::CidsExhausted) => {
                &&& end matches ConnectionEnd::Dropped(cause) && cause@ == account
                &&& verdict matches Some(ConnectionEnd::Dropped(cause)) && cause@ == account
            },
        },
{
}

/// Law: a session goes through its steps in order. It dials the configured endpoint under the name
/// of the protocol, opens a stream, bridges the client to it, and only then ends well. A dial or a
/// stream that fails is the end, and the error says why.
pub proof fn session_goes_in_order(config: ConnectConfig, p: SessionProgress, step: SessionStep)
    requires
        session_step_due(config, p, step),
    ensures
        match p.connected {
            None => step matches SessionStep::Connect { remote, alpn } && remote
                == config.remote_endpoint_id && alpn@ == "herdr/iroh-bridge/0".spec_bytes(),
            Some(Err(cause)) => step matches SessionStep::Finish(Err(error)) && error.failure
                == Failure::ConnectRemote && error.cause@ == cause@ && error.kind is None,
            Some(Ok(_)) => match p.stream_opened {
                None => step is OpenStream,
                Some(Err(cause)) => step matches SessionStep::Finish(Err(error)) && error.failure
                    == Failure::OpenStream && error.cause@ == cause@ && error.kind is None,
                Some(Ok(_)) => if !p.bridged {
                    step is Bridge
                } else {
                    step matches SessionStep::Finish(Ok(_))
                },
            },
        },
{
    alpn_spelled_out();
}

/// Law: no session ends well before the client was bridged to the remote endpoint, whatever is
/// configured.
pub proof fn session_ends_well_only_once_bridged(config: ConnectConfig, p: SessionProgress)
    requires
        session_step_due(config, p, SessionStep::Finish(Ok(()))),
    ensures
        p.connected matches Some(Ok(_)),
        p.stream_opened matches Some(Ok(_)),
        p.bridged,
{
}

/// Law: a session depends on the remote endpoint alone, and on nothing else that is configured. It
/// runs in the same way whether the local socket is managed here or elsewhere.
pub proof fn session_depends_on_the_remote_alone(
    config: ConnectConfig,
    other: ConnectConfig,
    p: SessionProgress,
    step: SessionStep,
)
    requires
        config.remote_endpoint_id == other.remote_endpoint_id,
    ensures
        session_step_due(config, p, step) <==> session_step_due(other, p, step),
{
}

/// Law: the name of the protocol is `herdr/iroh-bridge/0`.
pub proof fn alpn_spelled_out()
    ensures
        ALPN@ == "herdr/iroh-bridge/0".spec_bytes(),
{
    reveal_strlit("herdr/iroh-bridge/0");
    is_ascii_chars_encode_utf8("herdr/iroh-bridge/0"@);
    assert(ALPN@ =~= "herdr/iroh-bridge/0".spec_bytes());
}

} // verus!
