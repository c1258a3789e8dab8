//! What the bridge is configured with.

use vstd::prelude::*;

use crate::keys::EndpointId;
use crate::paths::UnixPath;

verus! {

/// The ALPN identifier of the bridge protocol, `herdr/iroh-bridge/0`. Both sides must agree on it
/// for the QUIC handshake to succeed; changing it changes the wire format.
pub const ALPN: [u8; 19] = [
    0x68, 0x65, 0x72, 0x64, 0x72, 0x2f, 0x69, 0x72, 0x6f, 0x68, 0x2d, 0x62,
    0x72, 0x69, 0x64, 0x67, 0x65, 0x2f, 0x30,
];

/// Configuration of the serving side.
#[derive(Debug, Clone)]
pub struct ServeConfig {
    /// Path to the server's client socket on this host.
    pub server_socket: UnixPath,
    /// The Ed25519 secret key. Without one a new key is generated, and the endpoint id changes
    /// every run.
    pub secret_key: Option<[u8; 32]>,
    /// Custom relay URLs.
    pub relay_urls: Vec<String>,
}

/// Configuration of the connecting side.
#[derive(Debug, Clone)]
pub struct ConnectConfig {
    /// The remote endpoint's public key.
    pub remote_endpoint_id: EndpointId,
    /// Path of the local Unix socket for the client; `None` where the socket is managed elsewhere.
    pub local_socket: Option<UnixPath>,
    /// The Ed25519 secret key. Without one a new key is generated.
    pub secret_key: Option<[u8; 32]>,
    /// Custom relay URLs.
    pub relay_urls: Vec<String>,
}

} // verus!
