# iroh_bridge

Tunnels herdr's client protocol over a QUIC connection between two iroh endpoints.

    herdr client --Unix socket-- connect ==QUIC stream== serve --Unix socket-- herdr server

The crate is in two parts.

- `src/` is a Verus library. It holds the decisions: how an identity key is loaded, migrated or
  created, what its public key file says and how its endpoint id is found, which relays an endpoint
  uses, what happens next on the serving and on the connecting side, when a connection counts as
  dropped, when it is tried again, and when a bridge is over. Each function states what it decides, and the properties that span several functions are
  proved beside them as `pub proof fn`.
- `app/` performs the steps that the library asks for, and tells it what came of them: files,
  sockets, signals, the clock and the network.

What the library takes from other crates without proof stands behind functions marked
`#[verifier::external_body]`: hexadecimal text from `data-encoding`, and keys, relay URLs and relay
maps from `iroh`. The comment above each says what it claims.
