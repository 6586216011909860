//! The decision core of the bus loop.
//!
//! One loop owns one connection epoch. It serializes four classes of events:
//! requests for a fresh correlation identifier, requests to send an encoded
//! call, inbound messages from the peer, and the close signal. The loop that
//! waits for those events performs the channel and socket work outside this
//! library; every decision it takes -- which identifier to hand out, whether
//! to remember a call as outstanding, which waiter an inbound message
//! resolves, who is failed when the loop dies -- is made here, one event at a
//! time.

use vstd::prelude::*;

use crate::registry::Registry;
use crate::tunnel::PartialRefs;

verus! {

/// How one attempt of a call failed inside the bus, as delivered to the
/// call's waiter.
#[derive(Clone, Copy, Debug, PartialEq, Eq)]
pub enum BusError<E> {
    /// The outbound sink refused the write; the call was never outstanding.
    Sink(E),
    /// The loop terminated before the call was answered; safe to retry
    /// against the next epoch.
    Closed,
}

/// What the loop decided for one send request.
#[derive(Debug, PartialEq, Eq)]
pub enum SendOutcome<W> {
    /// The write succeeded: the call is now outstanding under its
    /// identifier, and its waiter is held until an answer or the drain.
    Registered,
    /// The write failed: the waiter is handed back, to be failed with the
    /// sink's error. The identifier was never registered, so it cannot leak.
    SinkRejected(W),
    /// The supplied identifier was never allocated in this epoch, or is
    /// already outstanding: the caller broke the allocation ritual. The
    /// waiter is handed back; nothing was registered.
    Refused(W),
    /// The loop is already closed: the waiter is handed back, to be failed
    /// with [`BusError::Closed`].
    Closed(W),
}

/// What the loop decided for one inbound message.
#[derive(Debug, PartialEq, Eq)]
pub enum InboundDisposition<W> {
    /// The message answers the outstanding call under this identifier: hand
    /// it to this waiter, exactly once.
    Deliver(u64, W),
    /// The message resolves nothing and is dropped; the loop carries on
    /// untouched.
    Ignored(IgnoreReason),
}

/// Why an inbound message was dropped.
#[derive(Clone, Copy, Debug, PartialEq, Eq)]
pub enum IgnoreReason {
    /// It carried a correlation identifier, but no call is outstanding under
    /// it: the peer answered something expired or unknown. Unusual, not
    /// fatal.
    Unmatched,
    /// It belongs to a stream for which no mapping is established.
    UnknownStream,
    /// It carried neither a correlation identifier nor a stream handle.
    NoRoute,
}

/// The state a bus loop owns exclusively: the correlation registry of its
/// epoch and whether the loop is still running.
pub struct BusState<W> {
    registry: Registry<W>,
    open: bool,
}

impl<W> BusState<W> {
    /// Whether the loop is still accepting events.
    pub closed spec fn is_open(self) -> bool {
        self.open
    }

    /// The next correlation identifier this epoch would hand out.
    pub closed spec fn counter(self) -> u64 {
        self.registry.counter()
    }

    /// The outstanding calls of this epoch, oldest first.
    pub closed spec fn entries(self) -> Seq<(u64, W)> {
        self.registry.entries()
    }

    /// The waiters of the outstanding calls, oldest first.
    pub open spec fn waiters(self) -> Seq<W> {
        self.entries().map_values(|e: (u64, W)| e.1)
    }

    /// Whether a call is outstanding under `id`.
    pub open spec fn has_pending(self, id: u64) -> bool {
        exists|i: int| 0 <= i < self.entries().len() && self.entries()[i].0 == id
    }

    /// The position of the outstanding call under `id`.
    pub open spec fn pending_idx(self, id: u64) -> int {
        choose|i: int| 0 <= i < self.entries().len() && self.entries()[i].0 == id
    }

    /// The waiter of the outstanding call under `id`.
    pub open spec fn waiter_for(self, id: u64) -> W {
        self.entries()[self.pending_idx(id)].1
    }

    /// Whether this epoch has already handed out `id`.
    pub open spec fn allocated(self, id: u64) -> bool {
        id < self.counter()
    }

    /// No two outstanding calls of this epoch hold the same correlation
    /// identifier, and every outstanding identifier was allocated by this
    /// epoch's own counter. Holds for every state this module hands out.
    pub open spec fn well_formed(self) -> bool {
        &&& forall|i: int, j: int|
            0 <= i < j < self.entries().len() ==> (#[trigger] self.entries()[i]).0 != (
            #[trigger] self.entries()[j]).0
        &&& forall|i: int|
            0 <= i < self.entries().len() ==> (#[trigger] self.entries()[i]).0 < self.counter()
    }

    /// A state no event has touched yet: open, counter at zero, nothing
    /// outstanding.
    pub open spec fn is_fresh(self) -> bool {
        self.is_open() && self.counter() == 0 && self.entries().len() == 0
    }

    /// Starts a new epoch: the loop is open, the correlation counter is
    /// reset to zero, and no call is outstanding.
    pub fn new() -> (r: Self)
        ensures
            r.is_fresh(),
            r.well_formed(),
    {
        let r = BusState { registry: Registry::new(), open: true };
        proof {
            use_type_invariant(&r.registry);
        }
        r
    }

    /// The next correlation identifier, for callers that must rule out
    /// counter exhaustion before asking for an allocation.
    pub fn peek_counter(&self) -> (r: u64)
        ensures
            r == self.counter(),
    {
        self.registry.peek_counter()
    }

    /// A caller asks for a fresh correlation identifier before sending.
    ///
    /// While the loop is open, the answer is the epoch's counter -- distinct
    /// from every identifier still outstanding and from every earlier answer
    /// of this epoch -- and the counter moves up. On a closed loop nothing is
    /// handed out: the caller sees the bus as closed and retries against the
    /// next epoch.
    pub fn on_ref_request(&mut self) -> (r: Option<u64>)
        requires
            old(self).counter() < u64::MAX,
        ensures
            final(self).well_formed(),
            old(self).is_open() ==> r === Some(old(self).counter()) && !old(self).has_pending(
                old(self).counter()) && final(self).is_open() && final(self).counter() == old(
                self).counter() + 1 && final(self).entries() === old(self).entries(),
            !old(self).is_open() ==> r is None && *final(self) === *old(self),
    {
        proof {
            use_type_invariant(&self.registry);
        }
        if !self.open {
            return None;
        }
        let id = self.registry.allocate_id();
        proof {
            use_type_invariant(&self.registry);
        }
        Some(id)
    }

    /// A caller hands over an already-allocated identifier, the waiter for
    /// the answer, and whether the loop's attempt to write the encoded call
    /// to the sink succeeded.
    ///
    /// Only a successful write makes the call outstanding; on any failure
    /// the waiter is handed straight back and no entry is left behind, so an
    /// identifier can never leak into the registry without a message on the
    /// wire.
    pub fn on_send(&mut self, msg_ref: u64, waiter: W, write_ok: bool) -> (r: SendOutcome<W>)
        ensures
            final(self).well_formed(),
            final(self).counter() == old(self).counter(),
            final(self).is_open() == old(self).is_open(),
            !old(self).is_open() ==> r === SendOutcome::Closed(waiter) && final(self).entries()
                === old(self).entries(),
            old(self).is_open() && !write_ok ==> r === SendOutcome::SinkRejected(waiter) && final(
                self).entries() === old(self).entries(),
            old(self).is_open() && write_ok && old(self).allocated(msg_ref) && !old(
                self).has_pending(msg_ref) ==> r is Registered && final(self).entries() === old(
                self).entries().push((msg_ref, waiter)),
            old(self).is_open() && write_ok && !(old(self).allocated(msg_ref) && !old(
                self).has_pending(msg_ref)) ==> r === SendOutcome::Refused(waiter) && final(
                self).entries() === old(self).entries(),
    {
        proof {
            use_type_invariant(&self.registry);
        }
        if !self.open {
            return SendOutcome::Closed(waiter);
        }
        if !write_ok {
            return SendOutcome::SinkRejected(waiter);
        }
        let r = match self.registry.register(msg_ref, waiter) {
            Ok(()) => SendOutcome::Registered,
            Err(w) => SendOutcome::Refused(w),
        };
        proof {
            use_type_invariant(&self.registry);
        }
        r
    }

    /// An inbound message arrived; `refs` is its routing metadata, as the
    /// partial decode extracted it.
    ///
    /// A correlation identifier with an outstanding call resolves that call:
    /// the entry is removed -- the answer is delivered at most once -- and
    /// every other outstanding call is left exactly as it was. Anything else
    /// is dropped without touching the state, so a stray or duplicate answer
    /// can neither stop the loop nor disturb another call.
    pub fn on_inbound(&mut self, refs: PartialRefs) -> (r: InboundDisposition<W>)
        ensures
            final(self).well_formed(),
            final(self).counter() == old(self).counter(),
            final(self).is_open() == old(self).is_open(),
            match refs.msg_ref {
                Some(id) => {
                    &&& old(self).has_pending(id) ==> r === InboundDisposition::Deliver(
                        id,
                        old(self).waiter_for(id),
                    ) && final(self).entries() === old(self).entries().remove(
                        old(self).pending_idx(id),
                    ) && !final(self).has_pending(id)
                    &&& !old(self).has_pending(id) ==> r === InboundDisposition::Ignored(
                        IgnoreReason::Unmatched,
                    ) && final(self).entries() === old(self).entries()
                    &&& forall|x: u64|
                        x != id ==> (final(self).has_pending(x) <==> old(self).has_pending(x))
                },
                None => *final(self) === *old(self) && r === InboundDisposition::Ignored(
                    if refs.handle is Some {
                        IgnoreReason::UnknownStream
                    } else {
                        IgnoreReason::NoRoute
                    },
                ),
            },
    {
        proof {
            use_type_invariant(&self.registry);
        }
        let ghost pre = *self;
        let r = match refs.msg_ref {
            Some(id) => match self.registry.resolve(id) {
                Some(w) => {
                    proof {
                        let k = pre.registry.idx_of(id);
                        assert(0 <= k < pre.entries().len() && pre.entries()[k].0 == id);
                        assert(pre.has_pending(id));
                        let k2 = pre.pending_idx(id);
                        assert(0 <= k2 < pre.entries().len() && pre.entries()[k2].0 == id);
                        assert(k == k2);
                        assert(pre.waiter_for(id) === w);
                        assert(!self.has_pending(id)) by {
                            if self.has_pending(id) {
                                let m = choose|m: int|
                                    0 <= m < self.entries().len() && self.entries()[m].0 == id;
                                assert(self.registry.has_id(id));
                            }
                        }
                    }
                    InboundDisposition::Deliver(id, w)
                },
                None => {
                    proof {
                        assert(!pre.has_pending(id)) by {
                            if pre.has_pending(id) {
                                let m = choose|m: int|
                                    0 <= m < pre.entries().len() && pre.entries()[m].0 == id;
                                assert(pre.registry.has_id(id));
                            }
                        }
                    }
                    InboundDisposition::Ignored(IgnoreReason::Unmatched)
                },
            },
            None => match refs.handle {
                Some(_) => InboundDisposition::Ignored(IgnoreReason::UnknownStream),
                None => InboundDisposition::Ignored(IgnoreReason::NoRoute),
            },
        };
        proof {
            use_type_invariant(&self.registry);
            if refs.msg_ref is Some {
                let id = refs.msg_ref.unwrap();
                assert forall|x: u64| x != id implies (self.has_pending(x) <==> pre.has_pending(
                x)) by {
                    if self.has_pending(x) {
                        let m = choose|m: int|
                            0 <= m < self.entries().len() && self.entries()[m].0 == x;
                        assert(self.registry.has_id(x));
                        assert(pre.registry.has_id(x));
                        let n = pre.registry.idx_of(x);
                        assert(0 <= n < pre.entries().len() && pre.entries()[n].0 == x);
                    }
                    if pre.has_pending(x) {
                        let m = choose|m: int|
                            0 <= m < pre.entries().len() && pre.entries()[m].0 == x;
                        assert(pre.registry.has_id(x));
                        assert(self.registry.has_id(x));
                        let n = self.registry.idx_of(x);
                        assert(0 <= n < self.entries().len() && self.entries()[n].0 == x);
                    }
                }
            }
        }
        r
    }

    /// The close signal, or the natural end of the inbound stream.
    ///
    /// The first close ends the epoch: every call still outstanding is
    /// removed and its waiter handed back, each exactly once and in
    /// registration order, to be failed with [`BusError::Closed`] -- never
    /// with a fabricated answer. Closing an already-closed loop is a no-op
    /// that hands back nobody.
    pub fn on_close(&mut self) -> (r: Vec<W>)
        ensures
            final(self).well_formed(),
            !final(self).is_open(),
            final(self).counter() == old(self).counter(),
            final(self).entries().len() == 0 || !old(self).is_open(),
            old(self).is_open() ==> r@ === old(self).waiters(),
            !old(self).is_open() ==> r@ === Seq::<W>::empty() && *final(self) === *old(self),
    {
        proof {
            use_type_invariant(&self.registry);
        }
        if !self.open {
            return Vec::new();
        }
        self.open = false;
        let drained = self.registry.drain();
        proof {
            use_type_invariant(&self.registry);
        }
        drained
    }
}

/// No two outstanding calls of one epoch ever hold the same correlation
/// identifier, however many callers race: every state the loop can reach is
/// well-formed -- `new` establishes it and every event handler keeps it --
/// and in a well-formed state any two distinct outstanding entries disagree
/// on their identifier.
pub proof fn lemma_outstanding_ids_distinct<W>(s: BusState<W>, i: int, j: int)
    requires
        s.well_formed(),
        0 <= i < j < s.entries().len(),
    ensures
        s.entries()[i].0 != s.entries()[j].0,
{
}

/// Closing while calls are outstanding hands back every waiter exactly once:
/// the drained sequence is the whole pending sequence, so as many failures
/// are delivered as calls were outstanding, and nothing stays behind to
/// hang.
pub proof fn lemma_close_fails_every_outstanding_call<W>(
    before: BusState<W>,
    after: BusState<W>,
    drained: Seq<W>,
)
    requires
        before.is_open(),
        drained === before.waiters(),
        after.entries().len() == 0,
    ensures
        drained.len() == before.entries().len(),
        forall|i: int| 0 <= i < before.entries().len() ==> drained[i] === before.entries()[i].1,
        forall|id: u64| !after.has_pending(id),
{
    assert forall|id: u64| !after.has_pending(id) by {
        if after.has_pending(id) {
            let k = choose|k: int|
                0 <= k < after.entries().len() && after.entries()[k].0 == id;
        }
    }
}

/// A new epoch allocates from its own counter, reset to zero: whatever any
/// earlier loop's counter had reached, a call retried against a freshly
/// constructed loop is handed identifier zero first.
pub proof fn lemma_epoch_counter_reset<W>(fresh: BusState<W>)
    requires
        fresh.is_fresh(),
    ensures
        fresh.counter() == crate::FIRST_CORRELATION_ID,
{
}

} // verus!
