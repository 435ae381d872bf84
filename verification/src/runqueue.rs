//! Per-priority ready queues.
//!
//! A [`RunQueue`] keeps one first-in, first-out queue of thread ids for every
//! priority level. Storage is a fixed table, so no operation allocates.

use vstd::prelude::*;

verus! {

/// Identifies a thread: an index into the scheduler's thread table.
pub type ThreadId = u8;

/// Identifies a priority level; a larger number is a higher priority.
pub type RunqueueId = u8;

/// Number of thread slots.
pub const THREAD_COUNT: usize = 16;

/// Number of priority levels.
pub const SCHED_PRIO_LEVELS: usize = 12;

/// The thread that runs next: the head of the highest level that is not
/// empty, or nothing when every level is empty.
pub open spec fn highest_ready(queues: Seq<Seq<ThreadId>>) -> Option<ThreadId>
    decreases queues.len(),
{
    if queues.len() == 0 {
        None
    } else if queues.last().len() > 0 {
        Some(queues.last()[0])
    } else {
        highest_ready(queues.drop_last())
    }
}

/// There is one queue per priority level, and each holds valid thread ids,
/// none of them twice.
pub open spec fn queues_wf(queues: Seq<Seq<ThreadId>>) -> bool {
    &&& queues.len() == SCHED_PRIO_LEVELS
    &&& forall|p: int| 0 <= p < SCHED_PRIO_LEVELS ==> (#[trigger] queues[p]).no_duplicates()
    &&& forall|p: int, i: int|
        0 <= p < SCHED_PRIO_LEVELS && 0 <= i < queues[p].len() ==> (#[trigger] queues[p][i] as int)
            < THREAD_COUNT
}

/// The ready threads, one ordered queue per priority level.
pub struct RunQueue {
    slots: [[ThreadId; THREAD_COUNT]; SCHED_PRIO_LEVELS],
    lens: [usize; SCHED_PRIO_LEVELS],
}

impl View for RunQueue {
    type V = Seq<Seq<ThreadId>>;

    /// The queue of every priority level, head first.
    closed spec fn view(&self) -> Seq<Seq<ThreadId>> {
        Seq::new(SCHED_PRIO_LEVELS as nat, |p: int| self.slots[p]@.take(self.lens[p] as int))
    }
}

impl RunQueue {
    /// The table is consistent and its queues are well formed.
    pub open spec fn wf(&self) -> bool {
        &&& self.inv()
        &&& queues_wf(self@)
    }

    /// No level claims more entries than the table has room for.
    pub closed spec fn inv(&self) -> bool {
        forall|p: int| 0 <= p < SCHED_PRIO_LEVELS ==> #[trigger] self.lens[p] <= THREAD_COUNT
    }

    /// Creates a run queue in which every level is empty.
    pub fn new() -> (rq: Self)
        ensures
            rq.wf(),
            rq@.len() == SCHED_PRIO_LEVELS,
            forall|p: int| 0 <= p < SCHED_PRIO_LEVELS ==> (#[trigger] rq@[p]).len() == 0,
    {
        let rq = RunQueue {
            slots: [[0u8; THREAD_COUNT]; SCHED_PRIO_LEVELS],
            lens: [0usize; SCHED_PRIO_LEVELS],
        };
        assert forall|p: int| 0 <= p < SCHED_PRIO_LEVELS implies (#[trigger] rq@[p]).len() == 0 by {
            assert(rq.lens[p] == 0);
        }
        rq
    }

    /// Appends `tid` to the tail of the queue of level `prio`.
    pub fn add(&mut self, tid: ThreadId, prio: RunqueueId)
        requires
            old(self).wf(),
            (tid as int) < THREAD_COUNT,
            (prio as int) < SCHED_PRIO_LEVELS,
            !old(self)@[prio as int].contains(tid),
        ensures
            final(self).wf(),
            final(self)@ == old(self)@.update(prio as int, old(self)@[prio as int].push(tid)),
    {
        let p = prio as usize;
        let n = self.lens[p];
        proof {
            let queue = self@[p as int];
            let longer = queue.push(tid);
            assert forall|i: int, j: int|
                0 <= i < longer.len() && 0 <= j < longer.len() && i != j implies longer[i]
                != longer[j] by {
                if i < queue.len() && j < queue.len() {
                } else if i < queue.len() {
                    assert(queue[i] != tid);
                } else {
                    assert(queue[j] != tid);
                }
            }
            assert forall|i: int| 0 <= i < longer.len() implies (#[trigger] longer[i] as int)
                < THREAD_COUNT by {
                if i < queue.len() {
                    assert(self@[p as int][i] == longer[i]);
                }
            }
            lemma_unique_ids_bounded(longer);
        }
        self.slots[p][n] = tid;
        self.lens[p] = n + 1;
        proof {
            let before = old(self)@;
            let after = before.update(p as int, before[p as int].push(tid));
            assert forall|q: int| 0 <= q < SCHED_PRIO_LEVELS implies #[trigger] self@[q]
                == after[q] by {
                if q == p {
                    assert(self@[q] =~= after[q]);
                } else {
                    assert(self.slots[q] == old(self).slots[q]);
                    assert(self@[q] =~= old(self)@[q]);
                }
            }
            assert(self@ =~= after);
            assert forall|q: int| 0 <= q < SCHED_PRIO_LEVELS implies #[trigger] self.lens[q]
                <= THREAD_COUNT by {
                if q != p {
                    assert(old(self).lens[q] <= THREAD_COUNT);
                }
            }
            assert forall|q: int| 0 <= q < SCHED_PRIO_LEVELS implies (#[trigger] self@[q]).no_duplicates() by {
                if q != p {
                    assert(old(self)@[q].no_duplicates());
                }
            }
            assert forall|q: int, i: int|
                0 <= q < SCHED_PRIO_LEVELS && 0 <= i < self@[q].len() implies (
            #[trigger] self@[q][i] as int) < THREAD_COUNT by {
                if q != p {
                    assert((old(self)@[q][i] as int) < THREAD_COUNT);
                } else if i < n {
                    assert((old(self)@[q][i] as int) < THREAD_COUNT);
                }
            }
        }
    }
}

impl RunQueue {
    /// Returns the head of the highest non-empty level, if any level is
    /// non-empty.
    pub fn get_next(&self) -> (next: Option<ThreadId>)
        requires
            self.wf(),
        ensures
            next == highest_ready(self@),
    {
        let mut p: usize = SCHED_PRIO_LEVELS;
        proof {
            assert(self@.take(SCHED_PRIO_LEVELS as int) =~= self@);
        }
        while p > 0
            invariant
                p <= SCHED_PRIO_LEVELS,
                self.wf(),
                self@.len() == SCHED_PRIO_LEVELS,
                highest_ready(self@) == highest_ready(self@.take(p as int)),
            decreases p,
        {
            p -= 1;
            proof {
                let upto = self@.take(p + 1);
                assert(upto.last() == self@[p as int]);
                assert(upto.drop_last() =~= self@.take(p as int));
            }
            if self.lens[p] > 0 {
                proof {
                    assert(self.lens[p as int] <= THREAD_COUNT);
                    assert(self@[p as int][0] == self.slots[p as int][0]);
                }
                return Some(self.slots[p][0]);
            }
            proof {
                assert(self@[p as int].len() == 0);
            }
        }
        proof {
            assert(self@.take(0).len() == 0);
        }
        None
    }
}

impl RunQueue {
    /// Removes `tid` from the queue of level `prio`, keeping the order of
    /// the others. A queue that does not hold `tid` stays as it is.
    pub fn del(&mut self, tid: ThreadId, prio: RunqueueId)
        requires
            old(self).wf(),
            (prio as int) < SCHED_PRIO_LEVELS,
        ensures
            final(self).wf(),
            final(self)@ == old(self)@.update(
                prio as int,
                old(self)@[prio as int].remove_value(tid),
            ),
    {
        let p = prio as usize;
        let n = self.lens[p];
        let ghost queue = self@[p as int];
        proof {
            assert(self.lens[p as int] <= THREAD_COUNT);
            queue.index_of_first_ensures(tid);
        }
        let mut i: usize = 0;
        while i < n && self.slots[p][i] != tid
            invariant
                p < SCHED_PRIO_LEVELS,
                i <= n <= THREAD_COUNT,
                n == self.lens[p as int],
                queue == self@[p as int],
                forall|k: int| 0 <= k < i ==> queue[k] != tid,
            decreases n - i,
        {
            i += 1;
        }
        if i == n {
            proof {
                assert(!queue.contains(tid));
                assert(self@ =~= old(self)@.update(p as int, queue.remove_value(tid)));
            }
            return ;
        }
        proof {
            assert(queue[i as int] == tid);
            assert(queue.index_of_first(tid) == Some(i as int));
        }
        let mut j: usize = i;
        while j + 1 < n
            invariant
                p < SCHED_PRIO_LEVELS,
                i <= j < n <= THREAD_COUNT,
                self.lens == old(self).lens,
                forall|q: int| 0 <= q < SCHED_PRIO_LEVELS && q != p ==> self.slots[q] == old(self).slots[q],
                forall|k: int| 0 <= k < i ==> self.slots[p as int][k] == old(self).slots[p as int][k],
                forall|k: int|
                    i <= k < j ==> self.slots[p as int][k] == old(self).slots[p as int][k + 1],
                forall|k: int|
                    j <= k < THREAD_COUNT ==> self.slots[p as int][k] == old(self).slots[p as int][k],
            decreases n - j,
        {
            let moved = self.slots[p][j + 1];
            self.slots[p][j] = moved;
            j += 1;
        }
        self.lens[p] = n - 1;
        proof {
            let shorter = queue.remove(i as int);
            queue.remove_ensures(i as int);
            assert(self@[p as int] =~= shorter);
            let after = old(self)@.update(p as int, shorter);
            assert forall|q: int| 0 <= q < SCHED_PRIO_LEVELS implies #[trigger] self@[q]
                == after[q] by {
                if q != p {
                    assert(self.slots[q] == old(self).slots[q]);
                    assert(self@[q] =~= old(self)@[q]);
                }
            }
            assert(self@ =~= after);
            assert forall|q: int| 0 <= q < SCHED_PRIO_LEVELS implies #[trigger] self.lens[q]
                <= THREAD_COUNT by {
                if q != p {
                    assert(old(self).lens[q] <= THREAD_COUNT);
                }
            }
            assert forall|q: int| 0 <= q < SCHED_PRIO_LEVELS implies (#[trigger] self@[q]).no_duplicates() by {
                assert(old(self)@[q].no_duplicates());
                if q == p {
                    assert forall|a: int, b: int|
                        0 <= a < shorter.len() && 0 <= b < shorter.len() && a != b implies shorter[a]
                        != shorter[b] by {
                        let a0 = if a < i { a } else { a + 1 };
                        let b0 = if b < i { b } else { b + 1 };
                        assert(shorter[a] == queue[a0]);
                        assert(shorter[b] == queue[b0]);
                    }
                }
            }
            assert forall|q: int, k: int|
                0 <= q < SCHED_PRIO_LEVELS && 0 <= k < self@[q].len() implies (
            #[trigger] self@[q][k] as int) < THREAD_COUNT by {
                if q != p {
                    assert((old(self)@[q][k] as int) < THREAD_COUNT);
                } else {
                    let k0 = if k < i { k } else { k + 1 };
                    assert(shorter[k] == queue[k0]);
                    assert((old(self)@[q][k0] as int) < THREAD_COUNT);
                }
            }
        }
    }
}

/// The thread that `highest_ready` names is the head of a level above which
/// every level is empty; it names none only if every level is empty.
pub proof fn lemma_highest_ready_is_queued(queues: Seq<Seq<ThreadId>>)
    ensures
        match highest_ready(queues) {
            Some(tid) => exists|p: int|
                0 <= p < queues.len() && queues[p].len() > 0 && #[trigger] queues[p][0] == tid
                    && forall|h: int| p < h < queues.len() ==> (#[trigger] queues[h]).len() == 0,
            None => forall|p: int| 0 <= p < queues.len() ==> (#[trigger] queues[p]).len() == 0,
        },
    decreases queues.len(),
{
    if queues.len() > 0 {
        let top = queues.len() - 1;
        if queues.last().len() > 0 {
            assert(queues[top][0] == queues.last()[0]);
        } else {
            let lower = queues.drop_last();
            lemma_highest_ready_is_queued(lower);
            match highest_ready(lower) {
                Some(tid) => {
                    let p = choose|p: int|
                        0 <= p < lower.len() && lower[p].len() > 0 && #[trigger] lower[p][0] == tid
                            && forall|h: int|
                            p < h < lower.len() ==> (#[trigger] lower[h]).len() == 0;
                    assert(queues[p] == lower[p]);
                    assert forall|h: int| p < h < queues.len() implies (#[trigger] queues[h]).len()
                        == 0 by {
                        if h < top {
                            assert(queues[h] == lower[h]);
                        }
                    }
                },
                None => {
                    assert forall|p: int| 0 <= p < queues.len() implies (#[trigger] queues[p]).len()
                        == 0 by {
                        if p < top {
                            assert(queues[p] == lower[p]);
                        }
                    }
                },
            }
        }
    }
}

/// A sequence of distinct thread ids is no longer than the thread table.
proof fn lemma_unique_ids_bounded(s: Seq<ThreadId>)
    requires
        s.no_duplicates(),
        forall|i: int| 0 <= i < s.len() ==> (#[trigger] s[i] as int) < THREAD_COUNT,
    ensures
        s.len() <= THREAD_COUNT,
{
    let widen = |t: ThreadId| t as int;
    let ints = s.map_values(widen);
    assert(vstd::relations::injective(widen));
    s.lemma_no_duplicates_injective(widen);
    ints.unique_seq_to_set();
    let range = vstd::set_lib::set_int_range(0, THREAD_COUNT as int);
    vstd::set_lib::lemma_int_range(0, THREAD_COUNT as int);
    assert forall|x: int| ints.to_set().contains(x) implies range.contains(x) by {
        let i = choose|i: int| 0 <= i < ints.len() && ints[i] == x;
        assert(ints[i] == s[i] as int);
    }
    vstd::set_lib::lemma_len_subset(ints.to_set(), range);
}

} // verus!
