use vstd::prelude::*;

use crate::errors::DecodeFault;
use crate::errors::ProtocolError;

verus! {

/// One decoded line, reduced to the structure the engine reads: the
/// notification marker, the optional numeric id, and the success or error
/// result. The JSON codec that extracts these fields from a line lives
/// outside the engine; payloads stay serialized text, which the engine never
/// inspects.
pub struct RawMessage {
    /// The event name, present exactly when the line is tagged as an
    /// asynchronous notification.
    pub event: Option<String>,
    /// The numeric id field, if the line carries one.
    pub id: Option<u64>,
    /// The serialized success payload, if the line carries one.
    pub ret: Option<String>,
    /// The structured error, if the line carries one.
    pub error: Option<ProtocolError>,
}

/// The result a reply delivers to the command that is awaiting it: either
/// the serialized success payload or the structured error the remote side
/// returned instead.
pub enum CommandResult {
    Success { payload: String },
    Failure { error: ProtocolError },
}

/// What one line turned out to be: an asynchronous notification, never
/// matched against the pending-request table, or a reply to some command.
pub enum Classified {
    Notification { event: String },
    Reply { id: Option<u64>, result: CommandResult },
}

/// The classification rule: a message tagged as an asynchronous notification
/// is a notification; a message with exactly one of a success payload and a
/// structured error, and no notification marker, is a reply; anything else
/// is malformed.
pub open spec fn spec_classify(m: RawMessage) -> Result<Classified, DecodeFault> {
    match (m.event, m.ret, m.error) {
        (Some(event), None, None) => Ok(Classified::Notification { event }),
        (None, Some(payload), None) => Ok(
            Classified::Reply { id: m.id, result: CommandResult::Success { payload } },
        ),
        (None, None, Some(error)) => Ok(
            Classified::Reply { id: m.id, result: CommandResult::Failure { error } },
        ),
        _ => Err(DecodeFault::Malformed),
    }
}

/// Classifies one decoded line as a notification or a reply, per
/// `spec_classify`.
pub fn classify(m: RawMessage) -> (r: Result<Classified, DecodeFault>)
    ensures
        r == spec_classify(m),
{
    let RawMessage { event, id, ret, error } = m;
    match (event, ret, error) {
        (Some(event), None, None) => Ok(Classified::Notification { event }),
        (None, Some(payload), None) => Ok(
            Classified::Reply { id, result: CommandResult::Success { payload } },
        ),
        (None, None, Some(error)) => Ok(
            Classified::Reply { id, result: CommandResult::Failure { error } },
        ),
        _ => Err(DecodeFault::Malformed),
    }
}

} // verus!
