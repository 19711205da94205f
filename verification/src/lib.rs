//! Client-side engine for a line-delimited, JSON-based request/response
//! management protocol: the command issuer, the reply demultiplexer, the
//! shared pending-request table that pairs each command with its eventual
//! reply, and the two capability-negotiation handshakes performed at
//! connection setup.
//!
//! The engine works on already-decoded message shapes and hands encoded
//! commands back to its caller; the byte transport, the line framing and the
//! JSON codec live outside it.

pub mod connection;
pub mod errors;
pub mod handshake;
pub mod message;
pub mod pending;
