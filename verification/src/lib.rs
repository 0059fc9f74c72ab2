//! Network-facing layer of a local blockchain-development node.
//!
//! The crate models the canonical account-state value used to answer
//! state-proof queries, together with the lifecycle logic of the three
//! transports (HTTP, WebSocket, local socket) that serve one shared
//! backend: per-connection state machines, the accept loop of the local
//! socket listener, and the two-stage bind-then-run server launcher.
//! The transport I/O itself lives outside the verified library; the
//! decisions it follows are verified here.

pub mod account;
pub mod connection;
pub mod ipc;
pub mod launcher;
