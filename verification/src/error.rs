//! Why the bridge, or the identity key behind it, could not be had.

use vstd::prelude::*;
use vstd::string::StringExecFns;

verus! {

/// What failed.
#[derive(Debug, Clone, Copy, PartialEq, Eq, Structural)]
pub enum Failure {
    /// Waiting for the termination signal.
    Signal,
    /// A standalone connection was asked for without a local socket.
    LocalSocketRequired,
    /// Binding the local socket.
    BindLocalSocket,
    /// Accepting a client on the local socket.
    AcceptLocalClient,
    /// Reaching the remote endpoint.
    ConnectRemote,
    /// Opening a bidirectional stream on the connection.
    OpenStream,
    /// The connection to the remote endpoint, which neither side meant to end.
    ConnectionDropped,
    /// Binding the local endpoint.
    BindEndpoint,
    /// Moving a raw identity key to the encrypted format.
    MigrateKey,
    /// Loading the encrypted identity key.
    LoadKey,
    /// Creating an identity key.
    CreateKey,
    /// The public key file holds no hexadecimal text.
    InvalidPubkey,
    /// The public key file holds too few or too many bytes.
    InvalidPubkeyLength,
    /// The public key file holds bytes that are no public key.
    InvalidPublicKeyBytes,
    /// The configuration directory is unknown.
    NoConfigDir,
    /// An operation on a file, which gives its own account.
    Io,
}

/// The kind of an I/O error, `std::io::ErrorKind`. It is carried from the operation that failed to
/// the error that tells of it, and never looked into.
#[verifier::external_type_specification]
#[verifier::external_body]
pub struct ExErrorKind(std::io::ErrorKind);

/// What an I/O operation said of its failure.
#[derive(Debug)]
pub struct IoFault {
    pub kind: std::io::ErrorKind,
    pub text: String,
}

/// A failure of the bridge, with the account that another layer gave of the cause. The account is
/// empty where the failure says it all.
#[derive(Debug)]
pub struct BridgeError {
    pub failure: Failure,
    pub cause: String,
    /// The kind of the I/O error that it stands for, where it stands for one.
    pub kind: Option<std::io::ErrorKind>,
}

/// The words that introduce the cause of a failure.
pub open spec fn failure_text(failure: Failure) -> Seq<char> {
    match failure {
        Failure::Signal => "signal error: "@,
        Failure::LocalSocketRequired =>
            "ConnectConfig.local_socket is required for standalone mode"@,
        Failure::BindLocalSocket => "failed to bind local socket "@,
        Failure::AcceptLocalClient => "failed to accept on local socket: "@,
        Failure::ConnectRemote => "failed to connect to remote endpoint: "@,
        Failure::OpenStream => "failed to open bidirectional stream: "@,
        Failure::ConnectionDropped => "connection dropped: "@,
        Failure::BindEndpoint => "failed to bind iroh endpoint: "@,
        Failure::MigrateKey => "failed to migrate identity key: "@,
        Failure::LoadKey => "failed to load identity key: "@,
        Failure::CreateKey => "failed to create identity key: "@,
        Failure::InvalidPubkey => "invalid pubkey: "@,
        Failure::InvalidPubkeyLength => "invalid pubkey length"@,
        Failure::InvalidPublicKeyBytes => "invalid public key bytes: "@,
        Failure::NoConfigDir => "cannot determine config directory"@,
        Failure::Io => ""@,
    }
}

/// Whether an error stands for this failure with this cause, and for no I/O error.
pub open spec fn fails_with(error: BridgeError, failure: Failure, cause: Seq<char>) -> bool {
    error.failure == failure && error.cause@ == cause && error.kind is None
}

/// Whether an error stands for this failure, which has no cause to tell.
pub open spec fn fails_plainly(error: BridgeError, failure: Failure) -> bool {
    error.failure == failure && error.cause@.len() == 0 && error.kind is None
}

/// Whether an error stands for this failure with this cause, and for an I/O error of this kind.
pub open spec fn fails_as(
    error: BridgeError,
    failure: Failure,
    cause: Seq<char>,
    kind: std::io::ErrorKind,
) -> bool {
    error.failure == failure && error.cause@ == cause && error.kind == Some(kind)
}

/// Whether an error passes on what an operation on a file said.
pub open spec fn passes_on(error: BridgeError, fault: IoFault) -> bool {
    fails_as(error, Failure::Io, fault.text@, fault.kind)
}

/// Whether two errors say the same.
pub open spec fn same_error(a: BridgeError, b: BridgeError) -> bool {
    a.failure == b.failure && a.cause@ == b.cause@ && a.kind == b.kind
}

/// Two texts, one behind the other.
pub(crate) fn concat(first: &str, second: &str) -> (text: String)
    ensures
        text@ == first@ + second@,
{
    let mut text = first.to_owned();
    text.append(second);
    text
}

impl Failure {
    /// The words that introduce the cause of this failure.
    fn text(self) -> (text: &'static str)
        ensures
            text@ == failure_text(self),
    {
        match self {
            Failure::Signal => "signal error: ",
            Failure::LocalSocketRequired =>
                "ConnectConfig.local_socket is required for standalone mode",
            Failure::BindLocalSocket => "failed to bind local socket ",
            Failure::AcceptLocalClient => "failed to accept on local socket: ",
            Failure::ConnectRemote => "failed to connect to remote endpoint: ",
            Failure::OpenStream => "failed to open bidirectional stream: ",
            Failure::ConnectionDropped => "connection dropped: ",
            Failure::BindEndpoint => "failed to bind iroh endpoint: ",
            Failure::MigrateKey => "failed to migrate identity key: ",
            Failure::LoadKey => "failed to load identity key: ",
            Failure::CreateKey => "failed to create identity key: ",
            Failure::InvalidPubkey => "invalid pubkey: ",
            Failure::InvalidPubkeyLength => "invalid pubkey length",
            Failure::InvalidPublicKeyBytes => "invalid public key bytes: ",
            Failure::NoConfigDir => "cannot determine config directory",
            Failure::Io => "",
        }
    }
}

impl BridgeError {
    /// This failure with this cause.
    pub fn new(failure: Failure, cause: &str) -> (error: BridgeError)
        ensures
            fails_with(error, failure, cause@),
    {
        BridgeError { failure, cause: cause.to_owned(), kind: None }
    }

    /// This failure, which has no cause to tell.
    pub fn plain(failure: Failure) -> (error: BridgeError)
        ensures
            fails_plainly(error, failure),
    {
        BridgeError { failure, cause: String::new(), kind: None }
    }

    /// What an operation on a file said, passed on.
    pub fn io(fault: &IoFault) -> (error: BridgeError)
        ensures
            passes_on(error, *fault),
    {
        BridgeError {
            failure: Failure::Io,
            cause: fault.text.as_str().to_owned(),
            kind: Some(fault.kind),
        }
    }

    /// The text that describes this error.
    pub fn message(&self) -> (text: String)
        ensures
            text@ == failure_text(self.failure) + self.cause@,
    {
        concat(self.failure.text(), self.cause.as_str())
    }
}

impl Clone for BridgeError {
    fn clone(&self) -> (copy: Self)
        ensures
            same_error(copy, *self),
    {
        BridgeError { failure: self.failure, cause: self.cause.clone(), kind: self.kind }
    }
}

/// Law: what an error says can be told from its parts, and from nothing else.
pub proof fn errors_say_what_they_stand_for(
    error: BridgeError,
    failure: Failure,
    cause: Seq<char>,
    kind: std::io::ErrorKind,
    fault: IoFault,
    other: BridgeError,
)
    ensures
        fails_with(error, failure, cause) <==> error.failure == failure && error.cause@ == cause
            && error.kind is None,
        fails_plainly(error, failure) <==> error.failure == failure && error.cause@.len() == 0
            && error.kind is None,
        fails_as(error, failure, cause, kind) <==> error.failure == failure && error.cause@
            == cause && error.kind == Some(kind),
        passes_on(error, fault) <==> error.failure == Failure::Io && error.cause@ == fault.text@
            && error.kind == Some(fault.kind),
        same_error(error, other) <==> error.failure == other.failure && error.cause@
            == other.cause@ && error.kind == other.kind,
{
}

/// Law: the words of each failure. What an operation on a file said is passed on without any.
pub proof fn failures_spelled_out()
    ensures
        failure_text(Failure::Signal) == "signal error: "@,
        failure_text(Failure::LocalSocketRequired)
            == "ConnectConfig.local_socket is required for standalone mode"@,
        failure_text(Failure::BindLocalSocket) == "failed to bind local socket "@,
        failure_text(Failure::AcceptLocalClient) == "failed to accept on local socket: "@,
        failure_text(Failure::ConnectRemote) == "failed to connect to remote endpoint: "@,
        failure_text(Failure::OpenStream) == "failed to open bidirectional stream: "@,
        failure_text(Failure::ConnectionDropped) == "connection dropped: "@,
        failure_text(Failure::BindEndpoint) == "failed to bind iroh endpoint: "@,
        failure_text(Failure::MigrateKey) == "failed to migrate identity key: "@,
        failure_text(Failure::LoadKey) == "failed to load identity key: "@,
        failure_text(Failure::CreateKey) == "failed to create identity key: "@,
        failure_text(Failure::InvalidPubkey) == "invalid pubkey: "@,
        failure_text(Failure::InvalidPubkeyLength) == "invalid pubkey length"@,
        failure_text(Failure::InvalidPublicKeyBytes) == "invalid public key bytes: "@,
        failure_text(Failure::NoConfigDir) == "cannot determine config directory"@,
        failure_text(Failure::Io) == Seq::<char>::empty(),
{
    reveal_strlit("");
    assert(""@ =~= Seq::<char>::empty());
}

} // verus!
