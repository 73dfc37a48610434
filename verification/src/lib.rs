//! Sans-I/O engine of a client for a request/response/notification protocol
//! with a capability handshake.
//!
//! The engine issues request identifiers, builds the outbound envelopes,
//! queues what the transport delivers and decides, message by message, how an
//! in-flight request ends. Sending, receiving and timing are the caller's.

pub mod client;
pub mod error;
pub mod facade;
pub mod handshake;
pub mod json;
pub mod laws;
pub mod protocol;
pub mod types;
