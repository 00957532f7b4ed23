//! Bounded fan-out over the host list. The scheduler hands out each host
//! index exactly once, never keeps more than the configured worker count in
//! flight at a time, and accepts exactly one completion per dispatched index,
//! so a run over N hosts produces exactly N completion events whose indices
//! are 0..N with no duplicate and no gap.

use vstd::prelude::*;
use vstd::pervasive::unreached;
use crate::count::{count_true, lemma_count_true_le, lemma_count_true_full,
    lemma_count_true_update, lemma_count_true_false_suffix};
use crate::data::{HostInfo, Outcome, Failure, CompletionEvent};

verus! {

/// The explicit worker pool for one run: which indices have been handed out,
/// which have completed, and how many may be in flight at once.
pub struct FanOutScheduler {
    workers: usize,
    next: usize,
    completed: Vec<bool>,
    completed_count: usize,
}

impl FanOutScheduler {
    /// Number of hosts this run was created for.
    pub closed spec fn num_hosts(&self) -> int {
        self.completed@.len() as int
    }

    /// The configured worker bound W.
    pub closed spec fn workers(&self) -> int {
        self.workers as int
    }

    /// Indices `0..dispatched()` have been handed out to workers.
    pub closed spec fn dispatched(&self) -> int {
        self.next as int
    }

    /// Which indices have completed.
    pub closed spec fn spec_completed(&self) -> Seq<bool> {
        self.completed@
    }

    /// How many indices have completed.
    pub closed spec fn done_count(&self) -> int {
        self.completed_count as int
    }

    /// Dispatched but not yet completed.
    pub open spec fn in_flight(&self) -> int {
        self.dispatched() - self.done_count()
    }

    pub closed spec fn wf(&self) -> bool {
        &&& self.workers >= 1
        &&& self.next <= self.completed@.len()
        &&& self.completed_count == count_true(self.completed@)
        &&& self.completed_count <= self.next
        &&& forall|i: int|
            self.next <= i < self.completed@.len() ==> !self.completed@[i]
        &&& self.in_flight() <= self.workers
    }

    pub fn new(num_hosts: usize, workers: usize) -> (r: Self)
        requires
            workers >= 1,
        ensures
            r.wf(),
            r.num_hosts() == num_hosts,
            r.workers() == workers,
            r.dispatched() == 0,
            r.done_count() == 0,
            forall|i: int| 0 <= i < num_hosts ==> !r.spec_completed()[i],
    {
        let mut completed: Vec<bool> = Vec::new();
        let mut i: usize = 0;
        while i < num_hosts
            invariant
                i <= num_hosts,
                completed@.len() == i,
                forall|j: int| 0 <= j < i ==> !completed@[j],
                count_true(completed@) == 0,
            decreases num_hosts - i,
        {
            let ghost pre = completed@;
            completed.push(false);
            proof {
                assert(completed@.drop_last() =~= pre);
            }
            i = i + 1;
        }
        FanOutScheduler { workers, next: 0, completed, completed_count: 0 }
    }

    /// Hand out the next host index, if any is left and a worker slot is
    /// free; which free worker picks it up is the caller's business.
    pub fn try_dispatch(&mut self) -> (r: Option<usize>)
        requires
            old(self).wf(),
        ensures
            final(self).wf(),
            final(self).num_hosts() == old(self).num_hosts(),
            final(self).workers() == old(self).workers(),
            final(self).spec_completed() == old(self).spec_completed(),
            final(self).done_count() == old(self).done_count(),
            if old(self).dispatched() < old(self).num_hosts() && old(self).in_flight() < old(
                self,
            ).workers() {
                r == Some(old(self).dispatched() as usize) && final(self).dispatched() == old(
                    self,
                ).dispatched() + 1
            } else {
                r is None && final(self).dispatched() == old(self).dispatched()
            },
    {
        if self.next < self.completed.len() && self.next - self.completed_count < self.workers {
            let index = self.next;
            self.next = self.next + 1;
            Some(index)
        } else {
            None
        }
    }

    /// Record one host's completion and build its event. Each index is
    /// accepted once: a second completion for the same index is refused by
    /// the precondition.
    pub fn complete(
        &mut self,
        index: usize,
        host: HostInfo,
        result: Result<Outcome, Failure>,
    ) -> (ev: CompletionEvent)
        requires
            old(self).wf(),
            index < old(self).dispatched(),
            !old(self).spec_completed()[index as int],
        ensures
            final(self).wf(),
            final(self).num_hosts() == old(self).num_hosts(),
            final(self).workers() == old(self).workers(),
            final(self).dispatched() == old(self).dispatched(),
            final(self).done_count() == old(self).done_count() + 1,
            final(self).spec_completed() == old(self).spec_completed().update(index as int, true),
            ev == (CompletionEvent { index, host, result }),
    {
        proof {
            let s = self.completed@;
            let n = self.next as int;
            lemma_count_true_false_suffix(s, n);
            lemma_count_true_le(s.take(n));
            if count_true(s) == n {
                lemma_count_true_full(s.take(n));
                assert(s.take(n)[index as int]);
                assert(false);
            }
            lemma_count_true_update(s, index as int);
        }
        self.completed[index] = true;
        self.completed_count = self.completed_count + 1;
        CompletionEvent { index, host, result }
    }

    /// Has every host completed?
    pub fn all_done(&self) -> (r: bool)
        requires
            self.wf(),
        ensures
            r == (self.done_count() == self.num_hosts()),
    {
        self.completed_count == self.completed.len()
    }

    /// When the scheduler reports all hosts done, every index in 0..N has
    /// completed — and each exactly once, since `complete` refuses an index
    /// that is already marked.
    pub proof fn lemma_all_done_covers(&self)
        requires
            self.wf(),
            self.done_count() == self.num_hosts(),
        ensures
            forall|i: int| 0 <= i < self.num_hosts() ==> self.spec_completed()[i],
            self.dispatched() == self.num_hosts(),
    {
        lemma_count_true_full(self.completed@);
    }
}

/// Run the whole fan-out for one operation, with each host's result supplied
/// by the caller: dispatch every index through the scheduler, complete it,
/// and collect the events. Exactly one event per host comes out, and event
/// `i` carries index `i`, host `i` and host `i`'s result — the scheduler
/// contract behind the guarantee that indices are dense and unique however
/// completions are interleaved.
pub fn run_fan_out(
    hosts: Vec<HostInfo>,
    results: Vec<Result<Outcome, Failure>>,
    workers: usize,
) -> (events: Vec<CompletionEvent>)
    requires
        hosts@.len() == results@.len(),
        workers >= 1,
    ensures
        events@.len() == hosts@.len(),
        forall|i: int|
            0 <= i < events@.len() ==> events@[i].index == i && events@[i].host == hosts@[i]
                && events@[i].result == results@[i],
{
    let ghost hosts0 = hosts@;
    let ghost results0 = results@;
    let num_hosts = hosts.len();
    let mut hosts = hosts;
    let mut results = results;
    let mut sched = FanOutScheduler::new(num_hosts, workers);
    let mut events: Vec<CompletionEvent> = Vec::new();
    while events.len() < num_hosts
        invariant
            num_hosts == hosts0.len(),
            results0.len() == hosts0.len(),
            events@.len() <= num_hosts,
            sched.wf(),
            sched.num_hosts() == num_hosts,
            sched.workers() == workers,
            sched.dispatched() == events@.len(),
            sched.done_count() == events@.len(),
            hosts@ == hosts0.skip(events@.len() as int),
            results@ == results0.skip(events@.len() as int),
            forall|i: int|
                0 <= i < events@.len() ==> events@[i].index == i && events@[i].host == hosts0[i]
                    && events@[i].result == results0[i],
        decreases num_hosts - events@.len(),
    {
        let ghost k = events@.len() as int;
        let index = match sched.try_dispatch() {
            Some(index) => index,
            None => unreached(),
        };
        let host = hosts.remove(0);
        let result = results.remove(0);
        proof {
            assert(host == hosts0[k]);
            assert(result == results0[k]);
            assert(hosts@ =~= hosts0.skip(k + 1));
            assert(results@ =~= results0.skip(k + 1));
        }
        let ev = sched.complete(index, host, result);
        events.push(ev);
    }
    events
}

} // verus!
