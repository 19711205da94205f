use vstd::prelude::*;

verus! {

/// A structured error carried inside an otherwise well-formed reply: the
/// remote side accepted the command syntactically but refused it. This is a
/// normal outcome of a command, not a connection failure.
#[derive(Debug)]
pub struct ProtocolError {
    /// The error class reported by the remote side.
    pub class: String,
    /// The human-readable description reported by the remote side.
    pub desc: String,
}

/// A fault while classifying one incoming line or matching it against the
/// pending-request table. Fatal to the message being processed, and in this
/// design to the whole reader loop: there is no line-level resynchronization.
#[derive(Debug)]
pub enum DecodeFault {
    /// The connection negotiated out-of-band ids, but the reply carries no
    /// numeric id.
    MissingId,
    /// The connection did not negotiate out-of-band ids, but the reply
    /// carries one.
    UnexpectedId { id: u64 },
    /// The reply's id matches no outstanding command.
    UnknownId { id: u64 },
    /// The message is neither a notification nor a reply.
    Malformed,
}

/// A fault during connection establishment. No partially negotiated
/// connection is ever handed to a caller.
#[derive(Debug)]
pub enum HandshakeFault {
    /// A notification arrived where the negotiation reply was expected.
    UnexpectedNotification,
    /// The stream ended before the negotiation reply arrived.
    UnexpectedEof,
    /// The remote side refused the negotiation command itself.
    NegotiationRefused { error: ProtocolError },
    /// The synchronization reply did not echo the token that was sent.
    SyncMismatch { expected: i64, actual: i64 },
}

/// A failure of the connection itself, surfaced to every caller with an
/// outstanding command.
#[derive(Debug)]
pub enum TransportFault {
    /// The connection was torn down before the awaited reply arrived.
    Disconnected,
}

} // verus!
