//! The decisions behind a bridge that tunnels a client protocol over QUIC.
//!
//! A client on one host talks to a server on another through two Unix sockets and a single
//! bidirectional QUIC stream between them. This library decides, and leaves the doing to its
//! caller. For everything that takes several steps there is a record of what is known so far and a
//! function from that record to the next step; the caller performs the step, fills in what came of
//! it, and asks again.
//!
//! - [`serve`]: the side that accepts connections for the server,
//! - [`connect`]: the side that connects for the client, again and again where it has to,
//! - [`bridge`]: what the end of each direction of the stream means,
//! - [`relays`]: what an endpoint is bound with,
//! - [`identity`], [`lookup`] and [`keys`]: the persistent identity key and its public half,
//! - [`hex`], [`paths`], [`config`], [`error`]: what these are written in.

pub mod bridge;
pub mod config;
pub mod connect;
pub mod error;
pub mod hex;
pub mod identity;
pub mod keys;
pub mod lookup;
pub mod paths;
pub mod relays;
pub mod serve;
