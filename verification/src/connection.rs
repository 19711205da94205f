use vstd::prelude::*;

use crate::errors::DecodeFault;
use crate::errors::TransportFault;
use crate::message::Classified;
use crate::message::CommandResult;
use crate::message::RawMessage;
use crate::message::spec_classify;
use crate::pending::PendingTable;

verus! {

/// The reserved request id used for every command while out-of-band ids are
/// unsupported.
pub const DEFAULT_ID: u64 = 0;

/// The state of one open connection: whether the handshake negotiated
/// out-of-band ids (decided once, immutable afterward), the monotonic id
/// counter used only in that mode, and the shared pending-request table.
/// `T` is the caller's completion-handle type.
///
/// The command issuer and the message demultiplexer of one connection both
/// act on this one value; the caller serializes their access.
pub struct Connection<T> {
    /// Whether the handshake negotiated out-of-band ids. Treated as decided
    /// once: only the engine's own operations should write the fields.
    pub supports_oob: bool,
    /// The next out-of-band id to hand out.
    pub next_id: u64,
    /// The outstanding commands, keyed by request id.
    pub pending: PendingTable<T>,
}

/// A reply matched to its outstanding command: the id, the completion
/// handle that was registered under it, to be fulfilled exactly once with
/// `result`, and the reply's own result.
pub struct Resolution<T> {
    pub id: u64,
    pub handle: T,
    pub result: CommandResult,
}

/// What one processed line amounts to: an asynchronous notification, never
/// matched against the table, or a reply resolved against it.
pub enum Outcome<T> {
    Notification { event: String },
    Resolved { resolution: Resolution<T> },
}

/// The id a reply is keyed under, from its id field and the negotiated
/// mode: with out-of-band ids the reply must carry a numeric id, without
/// them it must carry none and is keyed under the reserved default id.
/// `None` is the id/mode mismatch, a decode fault.
pub open spec fn reply_key(supports_oob: bool, id_field: Option<u64>) -> Option<u64> {
    match id_field {
        Some(id) => if supports_oob {
            Some(id)
        } else {
            None
        },
        None => if supports_oob {
            None
        } else {
            Some(DEFAULT_ID)
        },
    }
}

impl<T> Connection<T> {
    /// The connection invariant: the table is well-formed; while
    /// out-of-band ids are unsupported it holds at most the one reserved
    /// slot; while they are supported every registered id was allocated
    /// below the counter.
    pub open spec fn wf(self) -> bool {
        &&& self.pending.wf()
        &&& !self.supports_oob ==> self.pending@.len() <= 1 && (forall|i: int|
            0 <= i < self.pending@.len() ==> (#[trigger] self.pending@[i]).0 == DEFAULT_ID)
        &&& self.supports_oob ==> (forall|i: int|
            0 <= i < self.pending@.len() ==> (#[trigger] self.pending@[i]).0 < self.next_id)
    }

    /// The id the next issued command will be registered under.
    pub open spec fn issued_key(self) -> u64 {
        if self.supports_oob {
            self.next_id
        } else {
            DEFAULT_ID
        }
    }

    /// A command may be issued now: always with out-of-band ids, otherwise
    /// only while no command is outstanding — acquiring exclusive write
    /// access is the serialization point of the single-slot id scheme.
    pub open spec fn can_issue_now(self) -> bool {
        self.supports_oob || self.pending@.len() == 0
    }

    pub fn new(supports_oob: bool) -> (c: Self)
        ensures
            c.wf(),
            c.supports_oob == supports_oob,
            c.next_id == 0,
            c.pending@.len() == 0,
    {
        Connection { supports_oob, next_id: 0, pending: PendingTable::new() }
    }

    pub fn can_issue(&self) -> (b: bool)
        ensures
            b == self.can_issue_now(),
    {
        self.supports_oob || self.pending.is_empty()
    }

    /// Allocates the request id for one command and registers the caller's
    /// completion handle under it, exactly one new entry per call. Returns
    /// the id to put on the wire: a fresh, strictly monotonic id with
    /// out-of-band support, no id at all without it. Under the invariant
    /// the allocated id can never collide with an outstanding one.
    pub fn issue(&mut self, handle: T) -> (id: Option<u64>)
        requires
            old(self).wf(),
            old(self).can_issue_now(),
            old(self).supports_oob ==> old(self).next_id < u64::MAX,
        ensures
            final(self).wf(),
            issue_step(*old(self), *final(self), handle, id),
    {
        let key: u64;
        let id: Option<u64>;
        if self.supports_oob {
            key = self.next_id;
            proof {
                assert(!self.pending.contains_id(key));
            }
            self.next_id = self.next_id + 1;
            id = Some(key);
        } else {
            key = DEFAULT_ID;
            id = None;
        }
        let inserted = self.pending.insert(key, handle);
        match inserted {
            Ok(()) => {
                proof {
                    let pre = *old(self);
                    assert(self.pending@ == pre.pending@.push((pre.issued_key(), handle)));
                    assert forall|i: int| 0 <= i < self.pending@.len() implies {
                        &&& !self.supports_oob ==> (#[trigger] self.pending@[i]).0 == DEFAULT_ID
                        &&& self.supports_oob ==> (#[trigger] self.pending@[i]).0 < self.next_id
                    } by {
                        if i < pre.pending@.len() {
                            assert(self.pending@[i] == pre.pending@[i]);
                        } else {
                            assert(self.pending@[i] == (pre.issued_key(), handle));
                        }
                    }
                    assert(self.pending@[pre.pending@.len() as int] == (
                        pre.issued_key(),
                        handle,
                    ));
                    assert(self.pending.has_entry(pre.issued_key(), handle));
                }
                id
            },
            Err(_) => vstd::pervasive::unreached(),
        }
    }

    /// Matches one reply against the pending-request table. The id field is
    /// validated against the negotiated mode, the matching entry is looked
    /// up and removed, and its handle is handed back to be fulfilled with
    /// exactly the reply's result. A mismatched id field, like an unknown
    /// id, is a decode fault that leaves the connection unchanged.
    pub fn process_response(&mut self, id_field: Option<u64>, result: CommandResult) -> (r: Result<
        Resolution<T>,
        DecodeFault,
    >)
        requires
            old(self).wf(),
        ensures
            final(self).wf(),
            response_step(*old(self), *final(self), id_field, result, r),
    {
        let key: u64 = match id_field {
            Some(id) => if self.supports_oob {
                id
            } else {
                return Err(DecodeFault::UnexpectedId { id });
            },
            None => if self.supports_oob {
                return Err(DecodeFault::MissingId);
            } else {
                DEFAULT_ID
            },
        };
        match self.pending.remove(key) {
            Some(handle) => {
                proof {
                    lemma_wf_after_remove(*old(self), *self, key);
                }
                Ok(Resolution { id: key, handle, result })
            },
            None => Err(DecodeFault::UnknownId { id: key }),
        }
    }

    /// Processes one decoded line: classifies it, passes a notification
    /// through untouched, and resolves a reply against the table.
    pub fn process_message(&mut self, raw: RawMessage) -> (r: Result<Outcome<T>, DecodeFault>)
        requires
            old(self).wf(),
        ensures
            final(self).wf(),
            message_step(*old(self), *final(self), raw, r),
    {
        match crate::message::classify(raw) {
            Err(fault) => Err(fault),
            Ok(Classified::Notification { event }) => Ok(Outcome::Notification { event }),
            Ok(Classified::Reply { id, result }) => match self.process_response(id, result) {
                Ok(resolution) => Ok(Outcome::Resolved { resolution }),
                Err(fault) => Err(fault),
            },
        }
    }

    /// Tears the connection down: every outstanding entry leaves the table,
    /// each handle handed back exactly once so its caller can be failed
    /// with a disconnection, and nothing stays pending forever.
    pub fn shutdown(&mut self) -> (r: Vec<(u64, T)>)
        ensures
            final(self).wf(),
            shutdown_step(*old(self), *final(self), r@),
    {
        let drained = self.pending.drain();
        proof {
            assert(self.wf());
        }
        drained
    }
}

/// What awaiting a completion handle amounts to for the caller that issued
/// the command: the reply's own result — success or structured protocol
/// error — when the handle was fulfilled, and a disconnection failure when
/// the connection was torn down first and the handle abandoned.
pub fn await_outcome(received: Option<CommandResult>) -> (r: Result<CommandResult, TransportFault>)
    ensures
        received matches Some(result) ==> r == Ok::<CommandResult, TransportFault>(result),
        received is None ==> r == Err::<CommandResult, TransportFault>(
            TransportFault::Disconnected,
        ),
{
    match received {
        Some(result) => Ok(result),
        None => Err(TransportFault::Disconnected),
    }
}

/// The transition one `issue` call makes: the negotiated mode is untouched,
/// exactly one entry is appended under the issued key, and with out-of-band
/// support the returned id is the old counter value — fresh with respect to
/// everything outstanding — and the counter advances.
pub open spec fn issue_step<T>(
    pre: Connection<T>,
    post: Connection<T>,
    handle: T,
    id: Option<u64>,
) -> bool {
    &&& post.supports_oob == pre.supports_oob
    &&& post.pending@ == pre.pending@.push((pre.issued_key(), handle))
    &&& post.pending.has_entry(pre.issued_key(), handle)
    &&& post.pending.contains_id(pre.issued_key())
    &&& if pre.supports_oob {
        &&& id == Some(pre.next_id)
        &&& post.next_id == pre.next_id + 1
        &&& !pre.pending.contains_id(pre.next_id)
    } else {
        &&& id == None::<u64>
        &&& post.next_id == pre.next_id
    }
}

/// Two connection states that agree on everything the engine's contracts
/// speak of: the negotiated mode, the id counter and the table's entries.
pub open spec fn state_eq<T>(a: Connection<T>, b: Connection<T>) -> bool {
    &&& a.supports_oob == b.supports_oob
    &&& a.next_id == b.next_id
    &&& a.pending@ == b.pending@
}

/// The transition one `process_response` call makes: the mode and the
/// counter are untouched; an id/mode mismatch or an unknown key is reported
/// as the corresponding decode fault with nothing else changed; a known key
/// is removed, its handle handed back with exactly the reply's result, and
/// every other entry kept.
pub open spec fn response_step<T>(
    pre: Connection<T>,
    post: Connection<T>,
    id_field: Option<u64>,
    result: CommandResult,
    r: Result<Resolution<T>, DecodeFault>,
) -> bool {
    &&& post.supports_oob == pre.supports_oob
    &&& post.next_id == pre.next_id
    &&& match reply_key(pre.supports_oob, id_field) {
        None => {
            &&& state_eq(pre, post)
            &&& if pre.supports_oob {
                r == Err::<Resolution<T>, DecodeFault>(DecodeFault::MissingId)
            } else {
                r == Err::<Resolution<T>, DecodeFault>(
                    DecodeFault::UnexpectedId { id: id_field->0 },
                )
            }
        },
        Some(key) => if pre.pending.contains_id(key) {
            &&& r matches Ok(res)
            &&& (r matches Ok(res) ==> {
                &&& res.id == key
                &&& res.result == result
                &&& pre.pending.has_entry(key, res.handle)
            })
            &&& !post.pending.contains_id(key)
            &&& post.pending@.len() == pre.pending@.len() - 1
            &&& forall|id2: u64, v2: T|
                id2 != key ==> (post.pending.has_entry(id2, v2) <==> pre.pending.has_entry(
                    id2,
                    v2,
                ))
        } else {
            &&& r == Err::<Resolution<T>, DecodeFault>(DecodeFault::UnknownId { id: key })
            &&& state_eq(pre, post)
        },
    }
}

/// The transition one `process_message` call makes: a malformed line is the
/// classifier's fault with nothing changed, a notification passes through
/// untouched and is never matched against the table, and a reply makes
/// exactly a `process_response` transition.
pub open spec fn message_step<T>(
    pre: Connection<T>,
    post: Connection<T>,
    raw: RawMessage,
    r: Result<Outcome<T>, DecodeFault>,
) -> bool {
    match spec_classify(raw) {
        Err(fault) => r == Err::<Outcome<T>, DecodeFault>(fault) && state_eq(pre, post),
        Ok(Classified::Notification { event }) => r == Ok::<Outcome<T>, DecodeFault>(
            Outcome::Notification { event },
        ) && state_eq(pre, post),
        Ok(Classified::Reply { id, result }) => match r {
            Ok(outcome) => {
                &&& outcome matches Outcome::Resolved { resolution }
                &&& (outcome matches Outcome::Resolved { resolution } ==> response_step(
                    pre,
                    post,
                    id,
                    result,
                    Ok(resolution),
                ))
            },
            Err(fault) => response_step(pre, post, id, result, Err(fault)),
        },
    }
}

/// The transition one `shutdown` call makes: the handed-back sequence is
/// exactly the outstanding entries, in order, and the table is left empty.
pub open spec fn shutdown_step<T>(
    pre: Connection<T>,
    post: Connection<T>,
    drained: Seq<(u64, T)>,
) -> bool {
    &&& post.supports_oob == pre.supports_oob
    &&& post.next_id == pre.next_id
    &&& drained == pre.pending@
    &&& post.pending@.len() == 0
}

/// Law: while out-of-band ids are unsupported, no two commands are ever
/// simultaneously represented in the pending-request table — every
/// reachable state holds at most the one reserved slot.
pub proof fn lemma_single_slot<T>(c: Connection<T>)
    requires
        c.wf(),
        !c.supports_oob,
    ensures
        c.pending@.len() <= 1,
{
}

/// Law: two commands issued in sequence while out-of-band ids are supported
/// receive strictly increasing ids, distinct from each other and from
/// everything outstanding when each was issued, and both end up registered
/// under their own id.
pub proof fn lemma_oob_ids_strictly_increase<T>(
    c0: Connection<T>,
    c1: Connection<T>,
    c2: Connection<T>,
    h1: T,
    h2: T,
    id1: Option<u64>,
    id2: Option<u64>,
)
    requires
        c0.wf(),
        c0.supports_oob,
        issue_step(c0, c1, h1, id1),
        issue_step(c1, c2, h2, id2),
    ensures
        id1 is Some && id2 is Some,
        id1->0 < id2->0,
        !c0.pending.contains_id(id1->0),
        !c1.pending.contains_id(id2->0),
        c2.pending.has_entry(id1->0, h1),
        c2.pending.has_entry(id2->0, h2),
{
    let n0 = c0.pending@.len() as int;
    assert(c1.pending@[n0] == (c0.issued_key(), h1));
    assert(c2.pending@[n0] == (c0.issued_key(), h1));
    assert(c2.pending@.contains((id1->0, h1)));
    assert(c2.pending@[n0 + 1] == (c1.issued_key(), h2));
    assert(c2.pending@.contains((id2->0, h2)));
}

/// Law: a reply whose id matches a pending entry resolves exactly that
/// entry with exactly the reply's result and removes it from the table; a
/// second reply under the same id never double-resolves — it is refused as
/// an unknown id and changes nothing.
pub proof fn lemma_reply_round_trip<T>(
    c0: Connection<T>,
    c1: Connection<T>,
    c2: Connection<T>,
    id_field: Option<u64>,
    key: u64,
    result1: CommandResult,
    result2: CommandResult,
    r1: Result<Resolution<T>, DecodeFault>,
    r2: Result<Resolution<T>, DecodeFault>,
)
    requires
        c0.wf(),
        reply_key(c0.supports_oob, id_field) == Some(key),
        c0.pending.contains_id(key),
        response_step(c0, c1, id_field, result1, r1),
        response_step(c1, c2, id_field, result2, r2),
    ensures
        r1 is Ok,
        r1->Ok_0.id == key,
        r1->Ok_0.result == result1,
        c0.pending.has_entry(key, r1->Ok_0.handle),
        !c1.pending.contains_id(key),
        c1.pending@.len() == c0.pending@.len() - 1,
        r2 == Err::<Resolution<T>, DecodeFault>(DecodeFault::UnknownId { id: key }),
        state_eq(c1, c2),
{
    assert(reply_key(c1.supports_oob, id_field) == Some(key));
}

/// Law: tearing down a connection with N outstanding commands hands back
/// exactly N handles, one per outstanding id with no duplicates, and a
/// second teardown hands back none.
pub proof fn lemma_shutdown_exact<T>(
    c0: Connection<T>,
    c1: Connection<T>,
    c2: Connection<T>,
    drained1: Seq<(u64, T)>,
    drained2: Seq<(u64, T)>,
)
    requires
        c0.wf(),
        shutdown_step(c0, c1, drained1),
        shutdown_step(c1, c2, drained2),
    ensures
        drained1 == c0.pending@,
        drained1.len() == c0.pending@.len(),
        forall|i: int, j: int| 0 <= i < j < drained1.len() ==> drained1[i].0 != drained1[j].0,
        drained2.len() == 0,
{
}

/// Removing a key preserves the connection invariant.
proof fn lemma_wf_after_remove<T>(pre: Connection<T>, post: Connection<T>, key: u64)
    requires
        pre.wf(),
        post.supports_oob == pre.supports_oob,
        post.next_id == pre.next_id,
        post.pending.wf(),
        post.pending@.len() == pre.pending@.len() - 1,
        !post.pending.contains_id(key),
        forall|id2: u64, v2: T|
            id2 != key ==> (post.pending.has_entry(id2, v2) <==> pre.pending.has_entry(id2, v2)),
    ensures
        post.wf(),
{
    assert forall|i: int| 0 <= i < post.pending@.len() implies {
        &&& !post.supports_oob ==> (#[trigger] post.pending@[i]).0 == DEFAULT_ID
        &&& post.supports_oob ==> (#[trigger] post.pending@[i]).0 < post.next_id
    } by {
        let entry = post.pending@[i];
        assert(post.pending@.contains(entry));
        assert(post.pending.has_entry(entry.0, entry.1));
        if entry.0 == key {
            assert(post.pending.contains_id(key));
            assert(false);
        } else {
            assert(pre.pending.has_entry(entry.0, entry.1));
            let j = choose|j: int|
                0 <= j < pre.pending@.len() && pre.pending@[j] == (entry.0, entry.1);
            assert(pre.pending@[j].0 == entry.0);
        }
    }
}

} // verus!
