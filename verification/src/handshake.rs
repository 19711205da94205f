use vstd::prelude::*;

use crate::errors::HandshakeFault;
use crate::errors::ProtocolError;
use crate::message::CommandResult;

verus! {

/// One optional capability advertised in the greeting of the management
/// protocol. The engine only ever distinguishes the out-of-band capability;
/// every other advertised capability is carried as `Other`.
pub enum Capability {
    OutOfBand,
    Other,
}

/// What the one driven demultiplexer step during a handshake classified:
/// the expected reply, a stray notification, or the end of the stream.
pub enum ReaderStep {
    Reply,
    Notification,
    EndOfStream,
}

/// The greeting advertises the out-of-band capability.
pub open spec fn spec_advertises_oob(caps: Seq<Capability>) -> bool {
    exists|i: int| 0 <= i < caps.len() && caps[i] is OutOfBand
}

/// Decides, once per connection, whether out-of-band ids are supported:
/// exactly when the greeting advertises the capability. The decision is
/// never renegotiated.
pub fn advertises_oob(caps: &Vec<Capability>) -> (b: bool)
    ensures
        b == spec_advertises_oob(caps@),
{
    let n = caps.len();
    let mut i: usize = 0;
    while i < n
        invariant
            n == caps@.len(),
            i <= n,
            forall|j: int| 0 <= j < i ==> !(#[trigger] caps@[j] is OutOfBand),
        decreases n - i,
    {
        if matches!(caps[i], Capability::OutOfBand) {
            return true;
        }
        i += 1;
    }
    false
}

/// The capabilities the client elects to enable: the out-of-band capability
/// exactly when the greeting advertised it, nothing else.
pub fn elected_caps(caps: &Vec<Capability>) -> (r: Vec<Capability>)
    ensures
        spec_advertises_oob(caps@) ==> r@ == seq![Capability::OutOfBand],
        !spec_advertises_oob(caps@) ==> r@ == Seq::<Capability>::empty(),
{
    let mut r: Vec<Capability> = Vec::new();
    if advertises_oob(caps) {
        r.push(Capability::OutOfBand);
        proof {
            assert(r@ =~= seq![Capability::OutOfBand]);
        }
    }
    r
}

/// The rule the management-protocol handshake outcome follows: both
/// branches must succeed, a reader-side fault is reported ahead of a
/// refused enable command, and on success out-of-band support is exactly
/// what the greeting advertised.
pub open spec fn spec_negotiate_caps(
    greeting: Seq<Capability>,
    enable_result: CommandResult,
    observed: ReaderStep,
) -> Result<bool, HandshakeFault> {
    match observed {
        ReaderStep::Notification => Err(HandshakeFault::UnexpectedNotification),
        ReaderStep::EndOfStream => Err(HandshakeFault::UnexpectedEof),
        ReaderStep::Reply => match enable_result {
            CommandResult::Failure { error } => Err(HandshakeFault::NegotiationRefused { error }),
            CommandResult::Success { payload: _ } => Ok(spec_advertises_oob(greeting)),
        },
    }
}

/// The outcome of the management-protocol handshake, decided from the
/// greeting and from what each of its two concurrent branches produced: the
/// capability-enable command's own result, and the classification of the
/// one message the demultiplexer was driven through.
///
/// The protocol guarantees no asynchronous event precedes the
/// capability-negotiation reply, so a notification, like an early end of
/// stream, is fatal. On success the connection's out-of-band support is
/// fixed, once and for all, to what the greeting advertised.
pub fn negotiate_caps(greeting: &Vec<Capability>, enable_result: CommandResult, observed: ReaderStep) -> (r:
    Result<bool, HandshakeFault>)
    ensures
        r == spec_negotiate_caps(greeting@, enable_result, observed),
{
    match observed {
        ReaderStep::Notification => Err(HandshakeFault::UnexpectedNotification),
        ReaderStep::EndOfStream => Err(HandshakeFault::UnexpectedEof),
        ReaderStep::Reply => match enable_result {
            CommandResult::Failure { error } => Err(HandshakeFault::NegotiationRefused { error }),
            CommandResult::Success { payload: _ } => Ok(advertises_oob(greeting)),
        },
    }
}

/// The rule the guest-agent handshake outcome follows: a reader-side fault
/// is reported ahead of a writer-side one, and a reply that echoes anything
/// but the token is a synchronization mismatch.
pub open spec fn spec_guest_sync(
    token: i64,
    sync_reply: Result<i64, ProtocolError>,
    observed: ReaderStep,
) -> Result<(), HandshakeFault> {
    match observed {
        ReaderStep::Notification => Err(HandshakeFault::UnexpectedNotification),
        ReaderStep::EndOfStream => Err(HandshakeFault::UnexpectedEof),
        ReaderStep::Reply => match sync_reply {
            Err(error) => Err(HandshakeFault::NegotiationRefused { error }),
            Ok(echo) => if echo == token {
                Ok(())
            } else {
                Err(HandshakeFault::SyncMismatch { expected: token, actual: echo })
            },
        },
    }
}

/// The outcome of the guest-agent handshake, decided from the token the
/// synchronization command carried and from what its two concurrent
/// branches produced: the synchronization command's own result, already
/// reduced to the echoed integer or the structured error it returned, and
/// the classification of the one message the demultiplexer was driven
/// through.
///
/// Negotiation succeeds exactly when a reply was observed and the echoed
/// value equals the token. This protocol variant never supports
/// out-of-band ids.
pub fn guest_sync_outcome(token: i64, sync_reply: Result<i64, ProtocolError>, observed: ReaderStep) -> (r:
    Result<(), HandshakeFault>)
    ensures
        r == spec_guest_sync(token, sync_reply, observed),
{
    match observed {
        ReaderStep::Notification => Err(HandshakeFault::UnexpectedNotification),
        ReaderStep::EndOfStream => Err(HandshakeFault::UnexpectedEof),
        ReaderStep::Reply => match sync_reply {
            Err(error) => Err(HandshakeFault::NegotiationRefused { error }),
            Ok(echo) => if echo == token {
                Ok(())
            } else {
                Err(HandshakeFault::SyncMismatch { expected: token, actual: echo })
            },
        },
    }
}

/// A counter-based generator of synchronization tokens for the guest-agent
/// handshake: each token handed out is distinct from every earlier one of
/// the same generator. Uniqueness across connections is best effort, as the
/// protocol accepts; it is not cryptographic.
pub struct SyncTokens {
    pub next: i64,
}

impl SyncTokens {
    pub fn new(start: i64) -> (g: Self)
        ensures
            g.next == start,
    {
        SyncTokens { next: start }
    }

    pub fn fresh(&mut self) -> (t: i64)
        requires
            old(self).next < i64::MAX,
        ensures
            t == old(self).next,
            final(self).next == old(self).next + 1,
    {
        let t = self.next;
        self.next = self.next + 1;
        t
    }
}

} // verus!
