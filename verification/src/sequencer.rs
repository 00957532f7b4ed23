//! Order-preserving result delivery. Completions arrive in nondeterministic
//! order; the sequencer either passes each one straight through (immediate
//! mode) or holds it in a slot array indexed by input position and emits the
//! longest ready prefix (stable mode), so presentation order equals input
//! order however completion order fell out.

use vstd::prelude::*;
use vstd::pervasive::unreached;
use crate::count::{count_true, lemma_count_true_le, lemma_count_true_full,
    lemma_count_true_update};
use crate::data::CompletionEvent;

verus! {

/// Reconstructs an input order from out-of-order arrivals: a fixed-size
/// array of N optional slots plus an emit cursor starting at 0. Inserting at
/// a vacant index stores the item and releases the maximal run of filled
/// slots that begins at the cursor. Independent of any session logic.
pub struct ReorderBuffer<T> {
    slots: Vec<Option<T>>,
    next_emit: usize,
}

impl<T> ReorderBuffer<T> {
    /// The slot array: position `i` holds the item inserted at `i` until the
    /// cursor passes it.
    pub closed spec fn entries(&self) -> Seq<Option<T>> {
        self.slots@
    }

    /// Number of slots.
    pub open spec fn capacity(&self) -> int {
        self.entries().len() as int
    }

    /// Everything below the cursor has already been released, in index
    /// order.
    pub closed spec fn cursor(&self) -> int {
        self.next_emit as int
    }

    /// Has an item for index `i` ever been inserted?
    pub open spec fn received(&self, i: int) -> bool {
        i < self.cursor() || self.entries()[i] is Some
    }

    pub closed spec fn wf(&self) -> bool {
        &&& self.next_emit <= self.slots@.len()
        &&& forall|i: int| 0 <= i < self.cursor() ==> self.entries()[i] is None
        &&& self.cursor() == self.capacity() || self.entries()[self.cursor()] is None
    }

    pub fn new(capacity: usize) -> (r: Self)
        ensures
            r.wf(),
            r.capacity() == capacity,
            r.cursor() == 0,
            forall|i: int| 0 <= i < capacity ==> r.entries()[i] is None,
    {
        let mut slots: Vec<Option<T>> = Vec::new();
        let mut i: usize = 0;
        while i < capacity
            invariant
                i <= capacity,
                slots@.len() == i,
                forall|j: int| 0 <= j < i ==> slots@[j] is None,
            decreases capacity - i,
        {
            slots.push(None);
            i = i + 1;
        }
        ReorderBuffer { slots, next_emit: 0 }
    }

    /// Exec view of the cursor.
    pub fn emitted_up_to(&self) -> (r: usize)
        ensures
            r == self.cursor(),
    {
        self.next_emit
    }

    /// Store `v` at vacant index `i`, then release the maximal run of filled
    /// slots starting at the cursor: the returned items are exactly the
    /// contents of positions `old cursor .. new cursor`, in index order, and
    /// the cursor stops at the first still-empty slot (or the end).
    #[verifier::loop_isolation(false)]
    pub fn insert(&mut self, i: usize, v: T) -> (ready: Vec<T>)
        requires
            old(self).wf(),
            i < old(self).capacity(),
            !old(self).received(i as int),
        ensures
            final(self).wf(),
            final(self).capacity() == old(self).capacity(),
            old(self).cursor() <= final(self).cursor() <= final(self).capacity(),
            ({
                let filled = old(self).entries().update(i as int, Some(v));
                &&& forall|k: int|
                    old(self).cursor() <= k < final(self).cursor() ==> filled[k] is Some
                &&& final(self).cursor() == final(self).capacity() || filled[final(self).cursor()]
                    is None
                &&& ready@.len() == final(self).cursor() - old(self).cursor()
                &&& forall|k: int|
                    0 <= k < ready@.len() ==> Some(ready@[k]) == filled[old(self).cursor() + k]
                &&& forall|j: int|
                    0 <= j < final(self).capacity() ==> final(self).entries()[j] == (if old(
                        self,
                    ).cursor() <= j < final(self).cursor() {
                        None::<T>
                    } else {
                        filled[j]
                    })
            }),
            forall|j: int|
                0 <= j < final(self).capacity() ==> (final(self).received(j) <==> old(
                    self,
                ).received(j) || j == i),
    {
        self.slots[i] = Some(v);
        let ghost filled = self.slots@;
        let ghost start = self.next_emit as int;
        proof {
            assert(filled == old(self).entries().update(i as int, Some(v)));
        }
        let mut ready: Vec<T> = Vec::new();
        while self.next_emit < self.slots.len() && self.slots[self.next_emit].is_some()
            invariant
                start <= self.next_emit as int <= self.slots@.len(),
                self.slots@.len() == filled.len(),
                forall|j: int|
                    0 <= j < filled.len() && !(start <= j < self.next_emit as int)
                        ==> self.slots@[j] == filled[j],
                forall|j: int|
                    start <= j < self.next_emit as int ==> self.slots@[j] is None && filled[j]
                        is Some,
                ready@.len() == self.next_emit as int - start,
                forall|k: int| 0 <= k < ready@.len() ==> Some(ready@[k]) == filled[start + k],
            decreases filled.len() - self.next_emit as int,
        {
            let idx = self.next_emit;
            let ghost slots_before = self.slots@;
            let mut taken: Option<T> = None;
            core::mem::swap(&mut taken, &mut self.slots[idx]);
            proof {
                assert(taken == slots_before[idx as int]);
                assert(self.slots@ == slots_before.update(idx as int, None::<T>));
                assert(slots_before[idx as int] == filled[idx as int]);
            }
            let x = match taken {
                Some(x) => x,
                None => unreached(),
            };
            ready.push(x);
            self.next_emit = idx + 1;
        }
        proof {
            assert forall|j: int| 0 <= j < self.cursor() implies self.entries()[j] is None by {
                if j < start {
                    assert(i as int >= old(self).cursor());
                    assert(j != i as int);
                    assert(self.slots@[j] == filled[j]);
                    assert(filled[j] == old(self).entries()[j]);
                    assert(old(self).entries()[j] is None);
                } else {
                    assert(filled[j] is Some);
                    assert(self.slots@[j] is None);
                }
            }
            assert forall|j: int|
                0 <= j < self.capacity() implies (self.received(j) <==> old(self).received(j) || j
                == i) by {
                if j < self.cursor() {
                    assert(self.received(j));
                    if j != i && !(j < old(self).cursor()) {
                        assert(filled[j] is Some);
                        assert(old(self).entries()[j] == filled[j]);
                    }
                }
            }
        }
        ready
    }
}

/// The single consumer of completion events. In immediate mode every event
/// is handed back for presentation the instant it arrives; in stable mode
/// events are parked in a [`ReorderBuffer`] and released strictly in index
/// order. Exactly one event per index is accepted.
pub struct ResultSequencer {
    keep_stable: bool,
    num_hosts: usize,
    seen: usize,
    received: Vec<bool>,
    buffer: ReorderBuffer<CompletionEvent>,
}

impl ResultSequencer {
    /// Stable mode: presentation order must equal input order.
    pub closed spec fn stable(&self) -> bool {
        self.keep_stable
    }

    /// Number of hosts N this run was created for.
    pub closed spec fn n(&self) -> int {
        self.num_hosts as int
    }

    /// How many events have arrived so far.
    pub closed spec fn seen(&self) -> int {
        self.seen as int
    }

    /// Which indices have arrived.
    pub closed spec fn spec_received(&self) -> Seq<bool> {
        self.received@
    }

    /// The emit cursor of the underlying reorder buffer.
    pub closed spec fn cursor(&self) -> int {
        self.buffer.cursor()
    }

    /// The slots of the underlying reorder buffer.
    pub closed spec fn buffer_entries(&self) -> Seq<Option<CompletionEvent>> {
        self.buffer.entries()
    }

    pub closed spec fn wf(&self) -> bool {
        &&& self.received@.len() == self.num_hosts
        &&& self.buffer.capacity() == self.num_hosts
        &&& self.buffer.wf()
        &&& self.seen == count_true(self.received@)
        &&& forall|i: int|
            0 <= i < self.n() ==> ((#[trigger] self.buffer.entries()[i]) matches Some(e)
                ==> e.index == i)
        &&& self.keep_stable ==> forall|i: int|
            0 <= i < self.n() ==> (self.buffer.received(i) <==> self.received@[i])
        &&& !self.keep_stable ==> self.buffer.cursor() == 0 && forall|i: int|
            0 <= i < self.n() ==> self.buffer.entries()[i] is None
    }

    pub fn new(keep_stable: bool, num_hosts: usize) -> (r: Self)
        ensures
            r.wf(),
            r.stable() == keep_stable,
            r.n() == num_hosts,
            r.seen() == 0,
            r.cursor() == 0,
            forall|i: int| 0 <= i < num_hosts ==> !r.spec_received()[i],
    {
        let mut received: Vec<bool> = Vec::new();
        let mut i: usize = 0;
        while i < num_hosts
            invariant
                i <= num_hosts,
                received@.len() == i,
                forall|j: int| 0 <= j < i ==> !received@[j],
                count_true(received@) == 0,
            decreases num_hosts - i,
        {
            let ghost pre = received@;
            received.push(false);
            proof {
                assert(received@.drop_last() =~= pre);
            }
            i = i + 1;
        }
        ResultSequencer {
            keep_stable,
            num_hosts,
            seen: 0,
            received,
            buffer: ReorderBuffer::new(num_hosts),
        }
    }

    /// Take one arriving event and hand back whatever must be presented now:
    /// the event itself in immediate mode, or the newly contiguous run of
    /// events starting at the cursor in stable mode (possibly none). The
    /// returned events carry consecutive indices continuing exactly where
    /// presentation left off.
    pub fn accept(&mut self, e: CompletionEvent) -> (ready: Vec<CompletionEvent>)
        requires
            old(self).wf(),
            e.index < old(self).n(),
            !old(self).spec_received()[e.index as int],
        ensures
            final(self).wf(),
            final(self).stable() == old(self).stable(),
            final(self).n() == old(self).n(),
            final(self).seen() == old(self).seen() + 1,
            final(self).spec_received() == old(self).spec_received().update(e.index as int, true),
            !old(self).stable() ==> ready@ == seq![e] && final(self).cursor() == 0,
            old(self).stable() ==> ({
                let filled = old(self).buffer_entries().update(e.index as int, Some(e));
                &&& old(self).cursor() <= final(self).cursor() <= final(self).n()
                &&& ready@.len() == final(self).cursor() - old(self).cursor()
                &&& forall|k: int|
                    0 <= k < ready@.len() ==> Some(ready@[k]) == filled[old(self).cursor() + k]
                &&& forall|k: int|
                    0 <= k < ready@.len() ==> ready@[k].index == old(self).cursor() + k
                &&& forall|j: int|
                    0 <= j < final(self).n() ==> final(self).buffer_entries()[j] == (if old(
                        self,
                    ).cursor() <= j < final(self).cursor() {
                        None::<CompletionEvent>
                    } else {
                        filled[j]
                    })
            }),
    {
        proof {
            lemma_count_true_le(self.received@);
            if count_true(self.received@) == self.received@.len() {
                lemma_count_true_full(self.received@);
                assert(false);
            }
            lemma_count_true_update(self.received@, e.index as int);
        }
        self.received[e.index] = true;
        self.seen = self.seen + 1;
        if !self.keep_stable {
            let mut ready: Vec<CompletionEvent> = Vec::new();
            ready.push(e);
            proof {
                assert(ready@ =~= seq![e]);
            }
            ready
        } else {
            let ghost pre = *old(self);
            let ghost filled = self.buffer.entries().update(e.index as int, Some(e));
            let index = e.index;
            let ready = self.buffer.insert(index, e);
            proof {
                assert forall|k: int| 0 <= k < ready@.len() implies ready@[k].index == pre.cursor()
                    + k by {
                    assert(Some(ready@[k]) == filled[pre.cursor() + k]);
                    if pre.cursor() + k != index {
                        assert(pre.buffer_entries()[pre.cursor() + k] == filled[pre.cursor() + k]);
                    }
                }
            }
            ready
        }
    }

    /// Has an event for `index` already arrived? A second event for the
    /// same index means the scheduler's one-event-per-host contract broke;
    /// the caller must treat that as fatal rather than feed it in.
    pub fn has_received(&self, index: usize) -> (r: bool)
        requires
            self.wf(),
            index < self.n(),
        ensures
            r == self.spec_received()[index as int],
    {
        self.received[index]
    }

    /// Have all N events arrived?
    pub fn is_complete(&self) -> (r: bool)
        requires
            self.wf(),
        ensures
            r == (self.seen() == self.n()),
    {
        self.seen == self.num_hosts
    }

    /// True once nothing is still parked: immediately in immediate mode, and
    /// once the cursor has reached N in stable mode. The inbound queue
    /// closing before this holds means a completion went missing — a broken
    /// scheduler invariant the caller must treat as fatal, not tolerate.
    pub fn fully_emitted(&self) -> (r: bool)
        requires
            self.wf(),
        ensures
            r == (!self.stable() || self.cursor() == self.n()),
    {
        !self.keep_stable || self.buffer.emitted_up_to() == self.num_hosts
    }

    /// Once every index has arrived, stable mode has emitted everything: the
    /// cursor can only stop early at a slot whose event never came.
    pub proof fn lemma_complete_drained(&self)
        requires
            self.wf(),
            self.seen() == self.n(),
        ensures
            self.stable() ==> self.cursor() == self.n(),
    {
        lemma_count_true_full(self.received@);
        if self.keep_stable && self.cursor() < self.n() {
            assert(self.received@[self.cursor()]);
            assert(self.buffer.received(self.cursor()));
            assert(self.buffer.entries()[self.cursor()] is None);
            assert(false);
        }
    }
}

/// Feed a whole arrival sequence — one event per host index, in any arrival
/// order — through a sequencer and concatenate everything it releases.
///
/// In immediate mode the presentation order is exactly the arrival order: a
/// host that finished first is presented first even when a slower host has a
/// lower index. In stable mode the presentation order is exactly the input
/// index order, independent of arrival order: the event for host `j` ends up
/// at position `j`.
pub fn run_sequencer(events: Vec<CompletionEvent>, keep_stable: bool, num_hosts: usize) -> (out:
    Vec<CompletionEvent>)
    requires
        events@.len() == num_hosts,
        forall|j: int| 0 <= j < events@.len() ==> (#[trigger] events@[j].index) < num_hosts,
        forall|j1: int, j2: int|
            0 <= j1 < j2 < events@.len() ==> events@[j1].index != events@[j2].index,
    ensures
        out@.len() == num_hosts,
        !keep_stable ==> out@ == events@,
        keep_stable ==> forall|j: int|
            0 <= j < num_hosts ==> out@[#[trigger] events@[j].index as int] == events@[j],
        keep_stable ==> forall|i: int| 0 <= i < num_hosts ==> (#[trigger] out@[i]).index == i,
{
    let ghost events0 = events@;
    let mut events = events;
    let mut seqr = ResultSequencer::new(keep_stable, num_hosts);
    let mut out: Vec<CompletionEvent> = Vec::new();
    let mut k: usize = 0;
    while k < num_hosts
        invariant
            events0.len() == num_hosts,
            k <= num_hosts,
            events@ == events0.skip(k as int),
            forall|j: int| 0 <= j < events0.len() ==> (#[trigger] events0[j].index) < num_hosts,
            forall|j1: int, j2: int|
                0 <= j1 < j2 < events0.len() ==> events0[j1].index != events0[j2].index,
            seqr.wf(),
            seqr.stable() == keep_stable,
            seqr.n() == num_hosts,
            seqr.seen() == k,
            forall|i: int|
                0 <= i < num_hosts ==> ((#[trigger] seqr.spec_received()[i]) <==> exists|j: int|
                    0 <= j < k && #[trigger] events0[j].index == i),
            !keep_stable ==> out@ == events0.take(k as int),
            keep_stable ==> out@.len() == seqr.cursor(),
            keep_stable ==> forall|j: int|
                0 <= j < k ==> if events0[j].index < seqr.cursor() {
                    out@[#[trigger] events0[j].index as int] == events0[j]
                } else {
                    seqr.buffer_entries()[events0[j].index as int] == Some(events0[j])
                },
        decreases num_hosts - k,
    {
        let ghost pre = seqr;
        let e = events.remove(0);
        proof {
            assert(e == events0[k as int]);
            assert(events@ =~= events0.skip(k as int + 1));
            if seqr.spec_received()[e.index as int] {
                let j = choose|j: int| 0 <= j < k && #[trigger] events0[j].index == e.index as int;
                assert(events0[j].index == events0[k as int].index);
                assert(false);
            }
        }
        let ready = seqr.accept(e);
        let mut ready = ready;
        out.append(&mut ready);
        proof {
            let ki = k as int;
            if keep_stable {
                let filled = pre.buffer_entries().update(e.index as int, Some(e));
                assert forall|j: int|
                    0 <= j < ki + 1 implies (if events0[j].index < seqr.cursor() {
                    out@[events0[j].index as int] == events0[j]
                } else {
                    seqr.buffer_entries()[events0[j].index as int] == Some(events0[j])
                }) by {
                    let idx = events0[j].index as int;
                    if j < ki {
                        assert(idx != e.index as int);
                        if idx < pre.cursor() {
                            assert(out@[idx] == events0[j]);
                        } else if idx < seqr.cursor() {
                            assert(filled[idx] == pre.buffer_entries()[idx]);
                            assert(Some(out@[pre.cursor() + (idx - pre.cursor())]) == filled[idx]);
                        } else {
                            assert(seqr.buffer_entries()[idx] == filled[idx]);
                        }
                    } else {
                        let idx0 = e.index as int;
                        if idx0 < seqr.cursor() {
                            assert(!pre.buffer.received(idx0));
                            assert(idx0 >= pre.cursor());
                            assert(Some(out@[pre.cursor() + (idx0 - pre.cursor())])
                                == filled[idx0]);
                        } else {
                            assert(seqr.buffer_entries()[idx0] == filled[idx0]);
                        }
                    }
                }
            } else {
                assert(out@ =~= events0.take(ki + 1));
            }
        }
        k = k + 1;
    }
    proof {
        seqr.lemma_complete_drained();
        lemma_count_true_full(seqr.spec_received());
        if keep_stable {
            assert forall|i: int| 0 <= i < num_hosts implies (#[trigger] out@[i]).index == i by {
                assert(seqr.spec_received()[i]);
                let j = choose|j: int| 0 <= j < num_hosts && #[trigger] events0[j].index == i;
                assert(out@[i] == events0[j]);
            }
        } else {
            assert(out@ =~= events0);
        }
    }
    out
}

} // verus!
