//! Attested RPC transport and cross-boundary dispatch.
//!
//! The crate provides the communication substrate of a confidential-computing
//! service platform: a length-delimited wire codec, client/server transport
//! abstractions with a connection-serving loop, an in-process channel
//! transport, a bounded connection server state machine, and a typed
//! cross-boundary dispatch layer that routes calls by numeric command
//! identifier.

pub mod bytes;
pub mod channel;
pub mod codec;
pub mod ipc;
pub mod message;
pub mod server;
pub mod service;
pub mod transport;
pub mod types;
pub mod user_info;
