//! The correlation registry: allocation of correlation identifiers and the
//! map from identifier to the waiter of the matching outstanding call.
//!
//! Identifiers are handed out monotonically, starting at zero for every
//! registry (and so for every connection epoch). The registry owns the only
//! counter, so two outstanding calls can never hold the same identifier: an
//! entry is only accepted under an identifier that the registry itself
//! allocated and that no other entry holds.

use vstd::prelude::*;

verus! {

/// Correlation state for one connection epoch: the identifier counter and the
/// outstanding calls, each an allocated identifier paired with its waiter.
pub struct Registry<W> {
    next_ref: u64,
    pending: Vec<(u64, W)>,
}

impl<W> Registry<W> {
    /// The next identifier this registry would hand out.
    pub closed spec fn counter(self) -> u64 {
        self.next_ref
    }

    /// The outstanding calls, oldest first.
    pub closed spec fn entries(self) -> Seq<(u64, W)> {
        self.pending@
    }

    /// The identifiers of the outstanding calls, oldest first.
    pub open spec fn ids(self) -> Seq<u64> {
        self.entries().map_values(|e: (u64, W)| e.0)
    }

    /// The waiters of the outstanding calls, oldest first.
    pub open spec fn waiters(self) -> Seq<W> {
        self.entries().map_values(|e: (u64, W)| e.1)
    }

    /// Whether a call is outstanding under `id`.
    pub open spec fn has_id(self, id: u64) -> bool {
        exists|i: int| 0 <= i < self.entries().len() && self.entries()[i].0 == id
    }

    /// The position of the outstanding call under `id`.
    pub open spec fn idx_of(self, id: u64) -> int {
        choose|i: int| 0 <= i < self.entries().len() && self.entries()[i].0 == id
    }

    /// The waiter of the outstanding call under `id`.
    pub open spec fn waiter_of(self, id: u64) -> W {
        self.entries()[self.idx_of(id)].1
    }

    /// Whether this registry has ever handed out `id`.
    pub open spec fn allocated(self, id: u64) -> bool {
        id < self.counter()
    }

    /// No two outstanding calls hold the same identifier, and every
    /// outstanding identifier was allocated here. Every registry this module
    /// hands out satisfies this, and every operation keeps it.
    #[verifier::type_invariant]
    pub open spec fn wf(self) -> bool {
        &&& forall|i: int, j: int|
            0 <= i < j < self.entries().len() ==> (#[trigger] self.entries()[i]).0 != (
            #[trigger] self.entries()[j]).0
        &&& forall|i: int|
            0 <= i < self.entries().len() ==> (#[trigger] self.entries()[i]).0 < self.counter()
    }

    /// A fresh registry: the counter starts at zero and nothing is
    /// outstanding.
    pub fn new() -> (r: Self)
        ensures
            r.counter() == 0,
            r.entries() === Seq::<(u64, W)>::empty(),
    {
        Registry { next_ref: 0, pending: Vec::new() }
    }

    /// The value the next allocation would return.
    pub fn peek_counter(&self) -> (r: u64)
        ensures
            r == self.counter(),
    {
        self.next_ref
    }

    /// How many calls are outstanding.
    pub fn outstanding(&self) -> (r: usize)
        ensures
            r == self.entries().len(),
    {
        self.pending.len()
    }

    /// Hands out the next identifier: strictly increasing within the epoch,
    /// and distinct from every identifier still outstanding.
    pub fn allocate_id(&mut self) -> (r: u64)
        requires
            old(self).counter() < u64::MAX,
        ensures
            r == old(self).counter(),
            final(self).counter() == old(self).counter() + 1,
            final(self).entries() === old(self).entries(),
            !old(self).has_id(r),
    {
        proof {
            use_type_invariant(&*self);
            assert(forall|i: int|
                0 <= i < self.entries().len() ==> (#[trigger] self.entries()[i]).0
                    < self.counter());
        }
        let id = self.next_ref;
        self.next_ref = self.next_ref + 1;
        id
    }

    /// Inserts an outstanding call under `id`. Refused -- with the waiter
    /// handed back untouched -- if `id` is already outstanding, or was never
    /// allocated here: either means the caller broke the allocation ritual.
    pub fn register(&mut self, id: u64, waiter: W) -> (r: Result<(), W>)
        ensures
            final(self).counter() == old(self).counter(),
            old(self).allocated(id) && !old(self).has_id(id) ==> r is Ok && final(self).entries()
                === old(self).entries().push((id, waiter)),
            !(old(self).allocated(id) && !old(self).has_id(id)) ==> r === Err(waiter) && final(
                self).entries() === old(self).entries(),
    {
        proof {
            use_type_invariant(&*self);
        }
        if id >= self.next_ref {
            return Err(waiter);
        }
        if self.find_id(id).is_some() {
            return Err(waiter);
        }
        let mut p: Vec<(u64, W)> = Vec::new();
        core::mem::swap(&mut self.pending, &mut p);
        p.push((id, waiter));
        core::mem::swap(&mut self.pending, &mut p);
        Ok(())
    }

    /// Removes and returns the waiter outstanding under `id`, if any; an
    /// identifier with no match leaves the registry untouched.
    pub fn resolve(&mut self, id: u64) -> (r: Option<W>)
        ensures
            final(self).counter() == old(self).counter(),
            old(self).has_id(id) ==> (r === Some(old(self).waiter_of(id)) && final(self).entries()
                === old(self).entries().remove(old(self).idx_of(id))),
            !old(self).has_id(id) ==> (r is None && final(self).entries() === old(self).entries()),
            !final(self).has_id(id),
            forall|x: u64| x != id ==> (final(self).has_id(x) <==> old(self).has_id(x)),
    {
        proof {
            use_type_invariant(&*self);
        }
        let found = self.find_id(id);
        match found {
            None => None,
            Some(i) => {
                let ghost pre = *self;
                let mut p: Vec<(u64, W)> = Vec::new();
                core::mem::swap(&mut self.pending, &mut p);
                let entry = p.remove(i);
                core::mem::swap(&mut self.pending, &mut p);
                proof {
                    assert(i as int == pre.idx_of(id)) by {
                        assert(0 <= pre.idx_of(id) < pre.entries().len() && pre.entries()[pre.idx_of(
                            id,
                        )].0 == id);
                    }
                    lemma_remove_keeps_distinct(pre.entries(), i as int, pre.counter());
                    assert forall|x: u64| x != id implies (self.has_id(x) <==> pre.has_id(
                        x,
                    )) by {
                        let s = pre.entries();
                        if pre.has_id(x) {
                            let k = choose|k: int| 0 <= k < s.len() && s[k].0 == x;
                            if k < i {
                                assert(self.entries()[k].0 == x);
                            } else {
                                assert(self.entries()[k - 1].0 == x);
                            }
                        }
                        if self.has_id(x) {
                            let k = choose|k: int|
                                0 <= k < self.entries().len() && self.entries()[k].0 == x;
                            if k < i {
                                assert(s[k].0 == x);
                            } else {
                                assert(s[k + 1].0 == x);
                            }
                        }
                    }
                    assert(!self.has_id(id)) by {
                        if self.has_id(id) {
                            let k = choose|k: int|
                                0 <= k < self.entries().len() && self.entries()[k].0 == id;
                            if k < i {
                                assert(pre.entries()[k].0 == id);
                            } else {
                                assert(pre.entries()[k + 1].0 == id);
                            }
                        }
                    }
                }
                Some(entry.1)
            },
        }
    }

    /// Removes every outstanding call and returns their waiters, oldest
    /// first, so that each can be failed exactly once. The counter is kept:
    /// identifiers of the old entries are not reused within this epoch.
    pub fn drain(&mut self) -> (r: Vec<W>)
        ensures
            final(self).counter() == old(self).counter(),
            final(self).entries() === Seq::<(u64, W)>::empty(),
            r@ === old(self).waiters(),
    {
        proof {
            use_type_invariant(&*self);
        }
        let mut p: Vec<(u64, W)> = Vec::new();
        core::mem::swap(&mut self.pending, &mut p);
        let mut out: Vec<W> = Vec::new();
        let ghost all = p@;
        while p.len() > 0
            invariant
                out@.len() + p@.len() == all.len(),
                out@ === all.take(out@.len() as int).map_values(|e: (u64, W)| e.1),
                p@ === all.skip(out@.len() as int),
            decreases p@.len(),
        {
            let ghost done = out@.len() as int;
            let entry = p.remove(0);
            out.push(entry.1);
            proof {
                assert(p@ === all.skip(done + 1));
                assert(out@ === all.take(done + 1).map_values(|e: (u64, W)| e.1)) by {
                    assert(all.take(done + 1).map_values(|e: (u64, W)| e.1).drop_last() === all.take(
                        done + 1).drop_last().map_values(|e: (u64, W)| e.1));
                    assert(all.take(done + 1).drop_last() === all.take(done));
                    assert(all.take(done + 1).map_values(|e: (u64, W)| e.1).last() === all[done].1);
                    assert(all[done] === entry);
                    assert(out@.drop_last() === all.take(done).map_values(|e: (u64, W)| e.1));
                }
            }
        }
        proof {
            assert(out@ === all.map_values(|e: (u64, W)| e.1)) by {
                assert(all.take(all.len() as int) === all);
            }
        }
        out
    }

    /// The position of `id` among the outstanding calls, if it is there.
    fn find_id(&self, id: u64) -> (r: Option<usize>)
        ensures
            r is Some ==> self.has_id(id) && 0 <= r.unwrap() < self.entries().len()
                && self.entries()[r.unwrap() as int].0 == id,
            r is None ==> !self.has_id(id),
    {
        let mut i: usize = 0;
        while i < self.pending.len()
            invariant
                0 <= i <= self.pending@.len(),
                forall|j: int| 0 <= j < i ==> (#[trigger] self.pending@[j]).0 != id,
            decreases self.pending@.len() - i,
        {
            if self.pending[i].0 == id {
                return Some(i);
            }
            i = i + 1;
        }
        None
    }

    /// Whether a call is outstanding under `id`.
    pub fn contains_id(&self, id: u64) -> (r: bool)
        ensures
            r == self.has_id(id),
    {
        self.find_id(id).is_some()
    }
}

/// Removing one entry neither duplicates an identifier nor frees one for
/// reuse below the counter.
proof fn lemma_remove_keeps_distinct<W>(s: Seq<(u64, W)>, at: int, bound: u64)
    requires
        0 <= at < s.len(),
        forall|i: int, j: int| 0 <= i < j < s.len() ==> (#[trigger] s[i]).0 != (#[trigger] s[j]).0,
        forall|i: int| 0 <= i < s.len() ==> (#[trigger] s[i]).0 < bound,
    ensures
        forall|i: int, j: int|
            0 <= i < j < s.remove(at).len() ==> (#[trigger] s.remove(at)[i]).0 != (
            #[trigger] s.remove(at)[j]).0,
        forall|i: int| 0 <= i < s.remove(at).len() ==> (#[trigger] s.remove(at)[i]).0 < bound,
{
    let t = s.remove(at);
    assert forall|i: int, j: int| 0 <= i < j < t.len() implies (#[trigger] t[i]).0 != (
    #[trigger] t[j]).0 by {
        let i0 = if i < at {
            i
        } else {
            i + 1
        };
        let j0 = if j < at {
            j
        } else {
            j + 1
        };
        assert(t[i] === s[i0]);
        assert(t[j] === s[j0]);
    }
    assert forall|i: int| 0 <= i < t.len() implies (#[trigger] t[i]).0 < bound by {
        let i0 = if i < at {
            i
        } else {
            i + 1
        };
        assert(t[i] === s[i0]);
    }
}

} // verus!
