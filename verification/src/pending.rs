use vstd::prelude::*;

verus! {

/// The pending-request table: the single point of truth correlating each
/// outstanding request id to the single-use completion handle of the caller
/// awaiting its reply. `T` is the handle type; the engine never looks inside
/// a handle, it only stores each one and hands it back exactly once.
///
/// The table is viewed as the sequence of its `(id, handle)` entries in
/// insertion order; `wf` says the ids are pairwise distinct, so the sequence
/// denotes a map.
pub struct PendingTable<T> {
    entries: Vec<(u64, T)>,
}

impl<T> View for PendingTable<T> {
    type V = Seq<(u64, T)>;

    closed spec fn view(&self) -> Seq<(u64, T)> {
        self.entries@
    }
}

impl<T> PendingTable<T> {
    /// At most one live entry per id.
    pub open spec fn wf(self) -> bool {
        forall|i: int, j: int|
            0 <= i < j < self@.len() ==> (#[trigger] self@[i]).0 != (#[trigger] self@[j]).0
    }

    /// Some entry is registered under `id`.
    pub open spec fn contains_id(self, id: u64) -> bool {
        exists|i: int| 0 <= i < self@.len() && (#[trigger] self@[i]).0 == id
    }

    /// The handle `v` is registered under `id`.
    pub open spec fn has_entry(self, id: u64, v: T) -> bool {
        self@.contains((id, v))
    }

    pub fn new() -> (t: Self)
        ensures
            t@ == Seq::<(u64, T)>::empty(),
            t.wf(),
    {
        PendingTable { entries: Vec::new() }
    }

    pub fn len(&self) -> (n: usize)
        ensures
            n == self@.len(),
    {
        self.entries.len()
    }

    pub fn is_empty(&self) -> (b: bool)
        ensures
            b == (self@.len() == 0),
    {
        self.entries.len() == 0
    }

    pub fn contains(&self, id: u64) -> (b: bool)
        ensures
            b == self.contains_id(id),
    {
        let n = self.entries.len();
        let mut i: usize = 0;
        while i < n
            invariant
                n == self@.len(),
                i <= n,
                forall|j: int| 0 <= j < i ==> (#[trigger] self@[j]).0 != id,
            decreases n - i,
        {
            if self.entries[i].0 == id {
                return true;
            }
            i += 1;
        }
        false
    }

    /// Registers the completion handle `v` under `id`. A colliding id is the
    /// mark of defective id allocation: the table is left unchanged and the
    /// handle is handed back, never silently dropped or overwritten.
    pub fn insert(&mut self, id: u64, v: T) -> (r: Result<(), T>)
        ensures
            r is Ok <==> !old(self).contains_id(id),
            r is Ok ==> final(self)@ == old(self)@.push((id, v)),
            r matches Err(w) ==> final(self)@ == old(self)@ && w == v,
            old(self).wf() ==> final(self).wf(),
    {
        if self.contains(id) {
            Err(v)
        } else {
            self.entries.push((id, v));
            proof {
                let pre = old(self)@;
                let post = self@;
                if old(self).wf() {
                    assert forall|i: int, j: int| 0 <= i < j < post.len() implies (
                    #[trigger] post[i]).0 != (#[trigger] post[j]).0 by {
                        assert(post[i] == pre[i]);
                        if j == pre.len() {
                            assert(post[j] == (id, v));
                            assert(pre[i].0 != id);
                        } else {
                            assert(post[j] == pre[j]);
                        }
                    }
                }
            }
            Ok(())
        }
    }

    /// Removes and returns the handle registered under `id`, if any. Every
    /// other entry is kept.
    pub fn remove(&mut self, id: u64) -> (r: Option<T>)
        requires
            old(self).wf(),
        ensures
            final(self).wf(),
            match r {
                Some(v) => {
                    &&& old(self).has_entry(id, v)
                    &&& final(self)@.len() == old(self)@.len() - 1
                    &&& !final(self).contains_id(id)
                    &&& forall|id2: u64, v2: T|
                        id2 != id ==> (final(self).has_entry(id2, v2) <==> old(self).has_entry(
                            id2,
                            v2,
                        ))
                },
                None => !old(self).contains_id(id) && final(self)@ == old(self)@,
            },
    {
        let n = self.entries.len();
        let mut i: usize = 0;
        while i < n
            invariant
                old(self).wf(),
                n == self@.len(),
                i <= n,
                self@ == old(self)@,
                forall|j: int| 0 <= j < i ==> (#[trigger] self@[j]).0 != id,
            decreases n - i,
        {
            if self.entries[i].0 == id {
                let pair = self.entries.remove(i);
                proof {
                    assert(pair == old(self)@[i as int]);
                    assert(old(self)@[i as int] == (id, pair.1));
                    self.lemma_after_remove(*old(self), i as int, id, pair.1);
                }
                return Some(pair.1);
            }
            i += 1;
        }
        None
    }

    /// After removing index `k` (whose key is `id`) from a well-formed
    /// table, the key is gone, every other entry is kept, and the table is
    /// still well-formed.
    proof fn lemma_after_remove(self, pre: Self, k: int, id: u64, v: T)
        requires
            pre.wf(),
            0 <= k < pre@.len(),
            pre@[k] == (id, v),
            self@ == pre@.remove(k),
        ensures
            self.wf(),
            pre.has_entry(id, v),
            self@.len() == pre@.len() - 1,
            !self.contains_id(id),
            forall|id2: u64, v2: T|
                id2 != id ==> (self.has_entry(id2, v2) <==> pre.has_entry(id2, v2)),
    {
        pre@.remove_ensures(k);
        assert(pre@.contains((id, v)));
        assert forall|i: int| 0 <= i < pre@.len() && i != k implies (#[trigger] pre@[i]).0
            != id by {
            if i < k {
                assert(pre@[i].0 != pre@[k].0);
            } else {
                assert(pre@[k].0 != pre@[i].0);
            }
        }
        assert forall|j: int| 0 <= j < self@.len() implies (#[trigger] self@[j]).0 != id by {
            if j < k {
                assert(self@[j] == pre@[j]);
            } else {
                assert(self@[j] == pre@[j + 1]);
            }
        }
        assert forall|i: int, j: int| 0 <= i < j < self@.len() implies (#[trigger] self@[i]).0 != (
        #[trigger] self@[j]).0 by {
            let i0 = if i < k {
                i
            } else {
                i + 1
            };
            let j0 = if j < k {
                j
            } else {
                j + 1
            };
            assert(self@[i] == pre@[i0]);
            assert(self@[j] == pre@[j0]);
            assert(pre@[i0].0 != pre@[j0].0);
        }
        assert forall|id2: u64, v2: T| id2 != id implies (self.has_entry(id2, v2)
            <==> pre.has_entry(id2, v2)) by {
            if self.has_entry(id2, v2) {
                let j = choose|j: int| 0 <= j < self@.len() && self@[j] == (id2, v2);
                if j < k {
                    assert(pre@[j] == (id2, v2));
                    assert(pre@.contains((id2, v2)));
                } else {
                    assert(pre@[j + 1] == (id2, v2));
                    assert(pre@.contains((id2, v2)));
                }
            }
            if pre.has_entry(id2, v2) {
                let j = choose|j: int| 0 <= j < pre@.len() && pre@[j] == (id2, v2);
                assert(j != k);
                if j < k {
                    assert(self@[j] == (id2, v2));
                    assert(self@.contains((id2, v2)));
                } else {
                    assert(self@[j - 1] == (id2, v2));
                    assert(self@.contains((id2, v2)));
                }
            }
        }
    }

    /// Removes every entry at once, in insertion order: the teardown path,
    /// where each outstanding handle must be handed back exactly once so its
    /// caller can be failed with a disconnection.
    pub fn drain(&mut self) -> (r: Vec<(u64, T)>)
        ensures
            r@ == old(self)@,
            final(self)@.len() == 0,
            final(self).wf(),
    {
        let mut out: Vec<(u64, T)> = Vec::new();
        core::mem::swap(&mut self.entries, &mut out);
        out
    }
}

} // verus!
