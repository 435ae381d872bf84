//! The scheduler: the thread table, the ready queues and the running thread.

use vstd::prelude::*;
use crate::arch::{schedule, schedule_requested, Arch};
use crate::runqueue::{
    highest_ready, lemma_highest_ready_is_queued, RunQueue, RunqueueId, ThreadId,
    SCHED_PRIO_LEVELS, THREAD_COUNT,
};
use crate::thread::{Thread, ThreadState};

verus! {

/// What the scheduler decided about who runs.
#[derive(Clone, Copy, PartialEq, Eq, Structural, Debug)]
pub enum Switch {
    /// No thread is ready. The CPU may sleep until an interrupt arrives.
    Idle,
    /// The thread that should run is the current one.
    Stay,
    /// Thread `to` runs from now on, in place of `from` if there was a
    /// current thread.
    To { from: Option<ThreadId>, to: ThreadId },
}

/// The state of the scheduler.
///
/// `A` is the CPU port that the scheduler runs on.
pub struct Scheduler<A: Arch> {
    /// The control blocks, indexed by thread id.
    pub threads: [Thread<A::ThreadData>; THREAD_COUNT],
    /// The threads that are ready to run.
    pub runqueue: RunQueue,
    /// The thread that is executing, if any.
    pub current_thread: Option<ThreadId>,
}

impl<A: Arch> Scheduler<A> {
    /// The invariant of the scheduler.
    ///
    /// Every control block sits at the index that is its id, a populated
    /// slot has a priority that exists, a thread is queued if and only if it
    /// is `Running`, and then at its own priority, and the current thread,
    /// if there is one, is a slot of the table.
    pub open spec fn wf(&self) -> bool {
        &&& self.runqueue.wf()
        &&& self.slots_wf()
        &&& self.queued_iff_running()
    }

    /// Every control block sits at the index that is its id, a populated
    /// slot has a priority that exists, and the current thread, if there is
    /// one, is a slot of the table.
    pub open spec fn slots_wf(&self) -> bool {
        &&& forall|i: int| 0 <= i < THREAD_COUNT ==> (#[trigger] self.threads[i]).tid == i
        &&& forall|i: int|
            0 <= i < THREAD_COUNT && (#[trigger] self.threads[i]).state != ThreadState::Invalid
                ==> (self.threads[i].prio as int) < SCHED_PRIO_LEVELS
        &&& self.current_thread matches Some(tid) ==> (tid as int) < THREAD_COUNT
    }

    /// A thread is in the ready queue of a level if and only if it is
    /// `Running` and the level is its priority.
    pub open spec fn queued_iff_running(&self) -> bool {
        forall|t: ThreadId, p: int|
            (t as int) < THREAD_COUNT && 0 <= p < SCHED_PRIO_LEVELS ==> (
            #[trigger] self.runqueue@[p].contains(t) <==> self.threads[t as int].state
                == ThreadState::Running && self.threads[t as int].prio == p)
    }

    /// Whether only the control block of `tid` may differ between `before`
    /// and this scheduler, the ready queues left aside.
    pub open spec fn only_changed(&self, before: Self, tid: ThreadId) -> bool {
        &&& self.current_thread == before.current_thread
        &&& forall|i: int|
            0 <= i < THREAD_COUNT && i != tid ==> #[trigger] self.threads[i] == before.threads[i]
    }

    /// Changing one control block keeps the table in order if the block
    /// keeps its id and, where it is populated, has a priority that exists.
    proof fn lemma_slots_kept(self, before: Self, tid: ThreadId)
        requires
            before.slots_wf(),
            Self::is_valid_tid(tid),
            self.only_changed(before, tid),
            self.threads[tid as int].tid == tid,
            self.threads[tid as int].state != ThreadState::Invalid ==> (
            self.threads[tid as int].prio as int) < SCHED_PRIO_LEVELS,
        ensures
            self.slots_wf(),
    {
        assert forall|i: int| 0 <= i < THREAD_COUNT implies (#[trigger] self.threads[i]).tid
            == i by {
            assert(before.threads[i].tid == i);
        }
        assert forall|i: int|
            0 <= i < THREAD_COUNT && (#[trigger] self.threads[i]).state
                != ThreadState::Invalid implies (self.threads[i].prio as int)
            < SCHED_PRIO_LEVELS by {
            if i != tid {
                assert(before.threads[i].state != ThreadState::Invalid);
            }
        }
    }

    /// The ready queues stay right when they are left alone and the one
    /// control block that changes is as much `Running` as before, at the
    /// same priority.
    proof fn lemma_queues_kept(self, before: Self, tid: ThreadId)
        requires
            before.queued_iff_running(),
            Self::is_valid_tid(tid),
            self.only_changed(before, tid),
            self.runqueue@ == before.runqueue@,
            (self.threads[tid as int].state == ThreadState::Running) == (
            before.threads[tid as int].state == ThreadState::Running),
            self.threads[tid as int].state == ThreadState::Running ==> self.threads[tid as int].prio
                == before.threads[tid as int].prio,
        ensures
            self.queued_iff_running(),
    {
        assert forall|t: ThreadId, p: int|
            (t as int) < THREAD_COUNT && 0 <= p < SCHED_PRIO_LEVELS implies (
        #[trigger] self.runqueue@[p].contains(t) <==> self.threads[t as int].state
            == ThreadState::Running && self.threads[t as int].prio == p) by {
            assert(before.runqueue@[p].contains(t) <==> before.threads[t as int].state
                == ThreadState::Running && before.threads[t as int].prio == p);
        }
    }

    /// The ready queues stay right when a thread that becomes `Running`
    /// joins the tail of the queue of its priority.
    proof fn lemma_queue_joined(self, before: Self, tid: ThreadId)
        requires
            before.queued_iff_running(),
            Self::is_valid_tid(tid),
            self.only_changed(before, tid),
            before.threads[tid as int].state != ThreadState::Running,
            self.threads[tid as int].state == ThreadState::Running,
            (self.threads[tid as int].prio as int) < SCHED_PRIO_LEVELS,
            self.runqueue@ == before.runqueue@.update(
                self.threads[tid as int].prio as int,
                before.runqueue@[self.threads[tid as int].prio as int].push(tid),
            ),
            before.runqueue@.len() == SCHED_PRIO_LEVELS,
        ensures
            self.queued_iff_running(),
    {
        let prio = self.threads[tid as int].prio as int;
        let queue = before.runqueue@[prio];
        let longer = queue.push(tid);
        assert forall|t: ThreadId, p: int|
            (t as int) < THREAD_COUNT && 0 <= p < SCHED_PRIO_LEVELS implies (
        #[trigger] self.runqueue@[p].contains(t) <==> self.threads[t as int].state
            == ThreadState::Running && self.threads[t as int].prio == p) by {
            assert(before.runqueue@[p].contains(t) <==> before.threads[t as int].state
                == ThreadState::Running && before.threads[t as int].prio == p);
            if p == prio {
                if t == tid {
                    assert(longer[longer.len() - 1] == tid);
                } else if queue.contains(t) {
                    let k = choose|k: int| 0 <= k < queue.len() && queue[k] == t;
                    assert(longer[k] == t);
                }
            }
        }
    }

    /// The ready queues stay right when a thread that stops being
    /// `Running` leaves the queue of its priority.
    proof fn lemma_queue_left(self, before: Self, tid: ThreadId)
        requires
            before.queued_iff_running(),
            before.slots_wf(),
            Self::is_valid_tid(tid),
            self.only_changed(before, tid),
            before.threads[tid as int].state == ThreadState::Running,
            self.threads[tid as int].state != ThreadState::Running,
            self.runqueue@ == before.runqueue@.update(
                before.threads[tid as int].prio as int,
                before.runqueue@[before.threads[tid as int].prio as int].remove_value(tid),
            ),
            before.runqueue@.len() == SCHED_PRIO_LEVELS,
            before.runqueue@[before.threads[tid as int].prio as int].no_duplicates(),
        ensures
            self.queued_iff_running(),
    {
        let prio = before.threads[tid as int].prio as int;
        let queue = before.runqueue@[prio];
        queue.index_of_first_ensures(tid);
        assert(queue.contains(tid));
        let at = queue.index_of_first(tid).unwrap();
        let shorter = queue.remove(at);
        queue.remove_ensures(at);
        assert forall|t: ThreadId, p: int|
            (t as int) < THREAD_COUNT && 0 <= p < SCHED_PRIO_LEVELS implies (
        #[trigger] self.runqueue@[p].contains(t) <==> self.threads[t as int].state
            == ThreadState::Running && self.threads[t as int].prio == p) by {
            assert(before.runqueue@[p].contains(t) <==> before.threads[t as int].state
                == ThreadState::Running && before.threads[t as int].prio == p);
            if p == prio {
                if shorter.contains(t) {
                    let k = choose|k: int| 0 <= k < shorter.len() && shorter[k] == t;
                    let k0 = if k < at {
                        k
                    } else {
                        k + 1
                    };
                    assert(queue[k0] == t);
                    assert(k0 != at);
                }
                if t != tid && queue.contains(t) {
                    let k0 = choose|k: int| 0 <= k < queue.len() && queue[k] == t;
                    let k = if k0 < at {
                        k0
                    } else {
                        k0 - 1
                    };
                    assert(shorter[k] == t);
                }
            }
        }
    }

    /// A scheduler stays well formed when one control block changes but
    /// keeps its id, its state and its priority, and nothing else changes.
    pub proof fn lemma_thread_kept_its_place(self, before: Self, tid: ThreadId)
        requires
            before.wf(),
            Self::is_valid_tid(tid),
            self.only_changed(before, tid),
            self.runqueue == before.runqueue,
            self.threads[tid as int].tid == before.threads[tid as int].tid,
            self.threads[tid as int].state == before.threads[tid as int].state,
            self.threads[tid as int].prio == before.threads[tid as int].prio,
        ensures
            self.wf(),
    {
        self.lemma_slots_kept(before, tid);
        self.lemma_queues_kept(before, tid);
    }

    /// The ready queues after thread `tid`, of priority `prio`, went from
    /// state `from` to state `to`: a thread that becomes `Running` joins the
    /// tail of its level, one that stops being `Running` leaves it, and
    /// nothing moves otherwise.
    pub open spec fn queues_after(
        queues: Seq<Seq<ThreadId>>,
        tid: ThreadId,
        prio: int,
        from: ThreadState,
        to: ThreadState,
    ) -> Seq<Seq<ThreadId>> {
        if from != ThreadState::Running && to == ThreadState::Running {
            queues.update(prio, queues[prio].push(tid))
        } else if from == ThreadState::Running && to != ThreadState::Running {
            queues.update(prio, queues[prio].remove_value(tid))
        } else {
            queues
        }
    }

    /// Who runs, given the ready queues and the current thread: the head of
    /// the highest level that is not empty.
    pub open spec fn decide(queues: Seq<Seq<ThreadId>>, current: Option<ThreadId>) -> Switch {
        match highest_ready(queues) {
            None => Switch::Idle,
            Some(next) => if current == Some(next) {
                Switch::Stay
            } else {
                Switch::To { from: current, to: next }
            },
        }
    }

    /// Whether `tid` names a slot of the thread table.
    pub open spec fn is_valid_tid(tid: ThreadId) -> bool {
        (tid as int) < THREAD_COUNT
    }

    /// Creates a scheduler without threads. Every slot starts unused.
    pub fn new() -> (s: Self)
        ensures
            s.wf(),
            s.current_thread.is_none(),
            forall|i: int|
                0 <= i < THREAD_COUNT ==> (#[trigger] s.threads[i]).state == ThreadState::Invalid
                    && s.threads[i].flags == 0 && s.threads[i].prio == 0 && s.threads[i].sp == 0
                    && s.threads[i].data == A::DEFAULT_THREAD_DATA,
            forall|p: int| 0 <= p < SCHED_PRIO_LEVELS ==> (#[trigger] s.runqueue@[p]).len() == 0,
    {
        let unused = Thread {
            sp: 0,
            state: ThreadState::Invalid,
            prio: 0,
            tid: 0,
            flags: 0,
            data: A::DEFAULT_THREAD_DATA,
        };
        let mut threads = [unused; THREAD_COUNT];
        let mut i: usize = 0;
        while i < THREAD_COUNT
            invariant
                i <= THREAD_COUNT,
                forall|j: int| 0 <= j < i ==> (#[trigger] threads[j]).tid == j,
                forall|j: int|
                    0 <= j < THREAD_COUNT ==> (#[trigger] threads[j]).state == ThreadState::Invalid
                        && threads[j].flags == 0 && threads[j].prio == 0 && threads[j].sp == 0
                        && threads[j].data == A::DEFAULT_THREAD_DATA,
            decreases THREAD_COUNT - i,
        {
            threads[i].tid = i as ThreadId;
            i += 1;
        }
        let s = Scheduler { threads, runqueue: RunQueue::new(), current_thread: None };
        proof {
            assert forall|t: ThreadId, p: int|
                (t as int) < THREAD_COUNT && 0 <= p < SCHED_PRIO_LEVELS implies (
            #[trigger] s.runqueue@[p].contains(t) <==> s.threads[t as int].state
                == ThreadState::Running && s.threads[t as int].prio == p) by {
                assert(s.runqueue@[p].len() == 0);
            }
        }
        s
    }

    /// Whether there is a current thread and its slot is populated.
    pub open spec fn in_thread(&self) -> bool {
        self.current_thread matches Some(tid) && self.threads[tid as int].state
            != ThreadState::Invalid
    }

    /// The control block of the current thread.
    pub open spec fn current_spec(&self) -> Thread<A::ThreadData>
        recommends
            self.current_thread.is_some(),
    {
        self.threads[self.current_thread.unwrap() as int]
    }

    /// Whether `tid` is the first unused slot of the thread table.
    pub open spec fn first_unused(&self, tid: ThreadId) -> bool {
        &&& Self::is_valid_tid(tid)
        &&& self.threads[tid as int].state == ThreadState::Invalid
        &&& forall|i: int| 0 <= i < tid ==> (#[trigger] self.threads[i]).state != ThreadState::Invalid
    }

    /// Creates a thread of priority `prio` in the first unused slot.
    ///
    /// The CPU port prepares `stack` so that the thread starts at address
    /// `entry` with `arg`, and decides the stack pointer and the saved
    /// context of the thread. The thread starts `Running`, without flags, at
    /// the tail of the ready queue of its priority, and the port is asked to
    /// schedule. Returns the id of the thread, or nothing, with nothing
    /// changed, if every slot is taken.
    pub fn create(
        &mut self,
        stack: &mut [u8],
        entry: usize,
        arg: Option<usize>,
        prio: RunqueueId,
    ) -> (created: Option<ThreadId>)
        requires
            old(self).wf(),
            (prio as int) < SCHED_PRIO_LEVELS,
        ensures
            final(self).wf(),
            final(self).current_thread == old(self).current_thread,
            match created {
                Some(tid) => {
                    &&& old(self).first_unused(tid)
                    &&& final(self).threads[tid as int].state == ThreadState::Running
                    &&& final(self).threads[tid as int].prio == prio
                    &&& final(self).threads[tid as int].flags == 0
                    &&& forall|i: int|
                        0 <= i < THREAD_COUNT && i != tid ==> #[trigger] final(self).threads[i]
                            == old(self).threads[i]
                    &&& final(self).runqueue@ == old(self).runqueue@.update(
                        prio as int,
                        old(self).runqueue@[prio as int].push(tid),
                    )
                    &&& exists|thread: &mut Thread<A::ThreadData>, prepared: &mut [u8]|
                        {
                            &&& *thread == old(self).threads[tid as int]
                            &&& prepared@ == old(stack)@
                            &&& call_ensures(A::setup_stack, (thread, prepared, entry, arg), ())
                            &&& final(self).threads[tid as int].sp == final(thread).sp
                            &&& final(self).threads[tid as int].data == final(thread).data
                            &&& final(stack)@ == final(prepared)@
                        }
                    &&& schedule_requested::<A>()
                },
                None => {
                    &&& forall|i: int|
                        0 <= i < THREAD_COUNT ==> (#[trigger] old(self).threads[i]).state
                            != ThreadState::Invalid
                    &&& final(self).threads == old(self).threads
                    &&& final(self).runqueue == old(self).runqueue
                    &&& final(stack)@ == old(stack)@
                },
            },
    {
        let mut slot: usize = 0;
        while slot < THREAD_COUNT && self.threads[slot].state != ThreadState::Invalid
            invariant
                slot <= THREAD_COUNT,
                *self == *old(self),
                forall|i: int| 0 <= i < slot ==> (#[trigger] self.threads[i]).state != ThreadState::Invalid,
            decreases THREAD_COUNT - slot,
        {
            slot += 1;
        }
        if slot == THREAD_COUNT {
            return None;
        }
        let tid = slot as ThreadId;
        let thread = &mut self.threads[slot];
        A::setup_stack(thread, stack, entry, arg);
        thread.tid = tid;
        thread.prio = prio;
        thread.flags = 0;
        // The slot is populated from here on; `set_state` below makes the
        // thread ready.
        thread.state = ThreadState::Paused;
        proof {
            self.lemma_slots_kept(*old(self), tid);
            self.lemma_queues_kept(*old(self), tid);
        }
        self.set_state(tid, ThreadState::Running);
        Some(tid)
    }

    /// The thread that is chosen to run is `Running`, and no `Running`
    /// thread has a higher priority. No thread is chosen only if none is
    /// `Running`.
    pub proof fn lemma_chosen_has_highest_priority(self)
        requires
            self.wf(),
        ensures
            match highest_ready(self.runqueue@) {
                Some(next) => {
                    &&& Self::is_valid_tid(next)
                    &&& self.threads[next as int].state == ThreadState::Running
                    &&& forall|t: ThreadId|
                        (t as int) < THREAD_COUNT && (#[trigger] self.threads[t as int]).state
                            == ThreadState::Running ==> self.threads[t as int].prio
                            <= self.threads[next as int].prio
                },
                None => forall|t: ThreadId|
                    (t as int) < THREAD_COUNT ==> (#[trigger] self.threads[t as int]).state
                        != ThreadState::Running,
            },
    {
        let queues = self.runqueue@;
        lemma_highest_ready_is_queued(queues);
        match highest_ready(queues) {
            Some(next) => {
                let p = choose|p: int|
                    0 <= p < queues.len() && queues[p].len() > 0 && #[trigger] queues[p][0] == next
                        && forall|h: int| p < h < queues.len() ==> (#[trigger] queues[h]).len() == 0;
                assert((queues[p][0] as int) < THREAD_COUNT);
                assert(queues[p].contains(next));
                assert forall|t: ThreadId|
                    (t as int) < THREAD_COUNT && (#[trigger] self.threads[t as int]).state
                        == ThreadState::Running implies self.threads[t as int].prio
                    <= self.threads[next as int].prio by {
                    let q = self.threads[t as int].prio as int;
                    assert(queues[q].contains(t));
                }
            },
            None => {
                assert forall|t: ThreadId| (t as int) < THREAD_COUNT implies (
                #[trigger] self.threads[t as int]).state != ThreadState::Running by {
                    if self.threads[t as int].state == ThreadState::Running {
                        let q = self.threads[t as int].prio as int;
                        assert(queues[q].contains(t));
                    }
                }
            },
        }
    }

    /// Chooses the thread to run and makes it the current thread.
    ///
    /// The CPU port calls this when a switch was requested, and performs the
    /// switch that the result asks for.
    pub fn sched(&mut self) -> (switch: Switch)
        requires
            old(self).wf(),
        ensures
            final(self).wf(),
            switch == Self::decide(old(self).runqueue@, old(self).current_thread),
            final(self).threads == old(self).threads,
            final(self).runqueue == old(self).runqueue,
            final(self).current_thread == match switch {
                Switch::To { from, to } => Some(to),
                _ => old(self).current_thread,
            },
    {
        let next = match self.runqueue.get_next() {
            Some(next) => next,
            None => {
                return Switch::Idle;
            },
        };
        proof {
            lemma_highest_ready_is_queued(self.runqueue@);
        }
        let from = self.current_thread;
        if let Some(current) = from {
            if current == next {
                return Switch::Stay;
            }
        }
        self.current_thread = Some(next);
        Switch::To { from, to: next }
    }

    /// Ends the current thread: its slot becomes unused, and it leaves the
    /// ready queue. A CPU port arranges for this to run when the entry
    /// function of a thread returns.
    pub fn cleanup(&mut self)
        requires
            old(self).wf(),
            old(self).in_thread(),
        ensures
            final(self).wf(),
            final(self).current_thread == old(self).current_thread,
            ({
                let tid = old(self).current_thread.unwrap();
                let thread = old(self).current_spec();
                &&& final(self).threads@ == old(self).threads@.update(
                    tid as int,
                    (Thread { state: ThreadState::Invalid, ..thread }),
                )
                &&& final(self).runqueue@ == Self::queues_after(
                    old(self).runqueue@,
                    tid,
                    thread.prio as int,
                    thread.state,
                    ThreadState::Invalid,
                )
                &&& thread.state == ThreadState::Running ==> schedule_requested::<A>()
            }),
    {
        let tid = self.current_thread.unwrap();
        self.set_state(tid, ThreadState::Invalid);
    }

    /// The id of the executing thread, if any.
    pub fn current_tid(&self) -> (tid: Option<ThreadId>)
        ensures
            tid == self.current_thread,
    {
        self.current_thread
    }

    /// The control block of the executing thread, or nothing outside of any
    /// thread.
    pub fn current(&mut self) -> (thread: Option<&mut Thread<A::ThreadData>>)
        requires
            old(self).current_thread matches Some(tid) ==> Self::is_valid_tid(tid),
        ensures
            match thread {
                Some(t) => old(self).current_thread matches Some(tid) && *t == old(self).threads[tid as int]
                    && final(self).threads@ == old(self).threads@.update(tid as int, *final(t)),
                None => old(self).current_thread.is_none() && final(self).threads == old(self).threads,
            },
            final(self).runqueue == old(self).runqueue,
            final(self).current_thread == old(self).current_thread,
    {
        match self.current_thread {
            Some(tid) => Some(&mut self.threads[tid as usize]),
            None => None,
        }
    }

    /// Moves thread `tid` to `state` and returns the state it had.
    ///
    /// A thread that becomes `Running` joins the tail of the ready queue of
    /// its priority, and one that stops being `Running` leaves its queue; in
    /// both cases the CPU port is asked to schedule.
    pub fn set_state(&mut self, tid: ThreadId, state: ThreadState) -> (previous: ThreadState)
        requires
            old(self).wf(),
            Self::is_valid_tid(tid),
            old(self).threads[tid as int].state != ThreadState::Invalid,
        ensures
            final(self).wf(),
            previous == old(self).threads[tid as int].state,
            final(self).threads@ == old(self).threads@.update(
                tid as int,
                (Thread { state, ..old(self).threads[tid as int] }),
            ),
            final(self).runqueue@ == Self::queues_after(
                old(self).runqueue@,
                tid,
                old(self).threads[tid as int].prio as int,
                previous,
                state,
            ),
            final(self).current_thread == old(self).current_thread,
            (previous == ThreadState::Running) != (state == ThreadState::Running)
                ==> schedule_requested::<A>(),
    {
        let previous = self.threads[tid as usize].state;
        let prio = self.threads[tid as usize].prio;
        self.threads[tid as usize].state = state;
        proof {
            self.lemma_slots_kept(*old(self), tid);
        }
        if previous != ThreadState::Running && state == ThreadState::Running {
            assert(!old(self).runqueue@[prio as int].contains(tid));
            self.runqueue.add(tid, prio);
            schedule::<A>();
            proof {
                self.lemma_queue_joined(*old(self), tid);
            }
        } else if previous == ThreadState::Running && state != ThreadState::Running {
            self.runqueue.del(tid, prio);
            schedule::<A>();
            proof {
                self.lemma_queue_left(*old(self), tid);
            }
        } else {
            proof {
                self.lemma_queues_kept(*old(self), tid);
            }
        }
        previous
    }

    /// The control block of thread `tid`.
    pub fn get_unchecked_mut(&mut self, tid: ThreadId) -> (thread: &mut Thread<A::ThreadData>)
        requires
            Self::is_valid_tid(tid),
        ensures
            *thread == old(self).threads[tid as int],
            final(self).threads@ == old(self).threads@.update(tid as int, *final(thread)),
            final(self).runqueue == old(self).runqueue,
            final(self).current_thread == old(self).current_thread,
    {
        &mut self.threads[tid as usize]
    }
}

} // verus!
