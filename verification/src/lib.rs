//! Undertone: a peer-to-peer signalling relay and its client.
//!
//! The library holds the protocol logic of Undertone: the wire format of its
//! packets, the routing table of the relay, the per-connection decisions of the
//! relay and the client, and the small rules around them (addresses, client
//! identifiers, error filtering). Sockets, timers and terminal output live in
//! the programs that drive it.

pub mod packet;
pub mod routes;
pub mod text;
pub mod server;
pub mod client;
pub mod decode;
pub mod laws;
