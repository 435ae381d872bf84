//! Thread flags.

use vstd::prelude::*;
use crate::arch::{schedule_requested, Arch};
use crate::ensure_once::EnsureOnce;
use crate::runqueue::ThreadId;
use crate::scheduler::Scheduler;
use crate::thread::{Thread, ThreadState};

verus! {

/// Bitmask of the flags that are set for a thread.
pub type ThreadFlags = u16;

/// Possible waiting modes for thread flags.
#[derive(Clone, Copy, PartialEq, Eq, Structural, Debug)]
pub enum WaitMode {
    /// Wait for any of the given flags.
    Any(ThreadFlags),
    /// Wait for all of the given flags.
    All(ThreadFlags),
}

impl WaitMode {
    /// Whether a thread whose flags are `flags` has what this mode waits for.
    pub open spec fn satisfied_by(self, flags: ThreadFlags) -> bool {
        match self {
            WaitMode::Any(mask) => flags & mask != 0,
            WaitMode::All(mask) => flags & mask == mask,
        }
    }

    /// Tells whether a thread whose flags are `flags` has what this mode
    /// waits for.
    pub fn is_satisfied_by(&self, flags: ThreadFlags) -> (r: bool)
        ensures
            r == self.satisfied_by(flags),
    {
        match self {
            WaitMode::Any(mask) => flags & *mask != 0,
            WaitMode::All(mask) => flags & *mask == *mask,
        }
    }
}

/// Sets the flags of `mask` for thread `thread_id`.
///
/// If the thread was blocked on flags and now has what it waited for, it
/// becomes `Running` and joins its ready queue.
pub fn set<A: Arch>(scheduler: &mut EnsureOnce<Scheduler<A>>, thread_id: ThreadId, mask: ThreadFlags)
    requires
        !old(scheduler).in_use(),
        old(scheduler)@.wf(),
        Scheduler::<A>::is_valid_tid(thread_id),
    ensures
        !final(scheduler).in_use(),
        final(scheduler)@.wf(),
        final(scheduler)@.flags_set(old(scheduler)@, thread_id, mask),
{
    let run = |s: &mut Scheduler<A>|
        requires
            old(s).wf(),
        ensures
            final(s).wf(),
            final(s).flags_set(*old(s), thread_id, mask),
        {
            s.flag_set(thread_id, mask)
        };
    scheduler.with(run)
}

/// One round of waiting until all flags of `mask` are set for the current
/// thread.
///
/// If they are all set, clears them and returns them. Otherwise the thread
/// is blocked until they are, and the result is nothing: the caller lets the
/// scheduler switch away and asks again when the thread runs again.
pub fn wait_all<A: Arch>(scheduler: &mut EnsureOnce<Scheduler<A>>, mask: ThreadFlags) -> (taken: Option<
    ThreadFlags,
>)
    requires
        !old(scheduler).in_use(),
        old(scheduler)@.wf(),
        old(scheduler)@.in_thread(),
    ensures
        !final(scheduler).in_use(),
        final(scheduler)@.wf(),
        if old(scheduler)@.current_spec().flags & mask == mask {
            taken == Some(mask) && final(scheduler)@.took_flags(old(scheduler)@, mask)
        } else {
            taken.is_none() && final(scheduler)@.blocked_on(old(scheduler)@, WaitMode::All(mask))
        },
{
    let run = |s: &mut Scheduler<A>| -> (taken: Option<ThreadFlags>)
        requires
            old(s).wf(),
            old(s).in_thread(),
        ensures
            final(s).wf(),
            if old(s).current_spec().flags & mask == mask {
                taken == Some(mask) && final(s).took_flags(*old(s), mask)
            } else {
                taken.is_none() && final(s).blocked_on(*old(s), WaitMode::All(mask))
            },
        {
            s.flag_wait_all(mask)
        };
    scheduler.with(run)
}

/// One round of waiting until any flag of `mask` is set for the current
/// thread.
///
/// If some are set, clears those and returns them. Otherwise the thread is
/// blocked until one is, and the result is nothing: the caller lets the
/// scheduler switch away and asks again when the thread runs again.
pub fn wait_any<A: Arch>(scheduler: &mut EnsureOnce<Scheduler<A>>, mask: ThreadFlags) -> (taken: Option<
    ThreadFlags,
>)
    requires
        !old(scheduler).in_use(),
        old(scheduler)@.wf(),
        old(scheduler)@.in_thread(),
    ensures
        !final(scheduler).in_use(),
        final(scheduler)@.wf(),
        if old(scheduler)@.current_spec().flags & mask != 0 {
            &&& taken == Some(old(scheduler)@.current_spec().flags & mask)
            &&& final(scheduler)@.took_flags(
                old(scheduler)@,
                old(scheduler)@.current_spec().flags & mask,
            )
        } else {
            taken.is_none() && final(scheduler)@.blocked_on(old(scheduler)@, WaitMode::Any(mask))
        },
{
    let run = |s: &mut Scheduler<A>| -> (taken: Option<ThreadFlags>)
        requires
            old(s).wf(),
            old(s).in_thread(),
        ensures
            final(s).wf(),
            if old(s).current_spec().flags & mask != 0 {
                taken == Some(old(s).current_spec().flags & mask) && final(s).took_flags(
                    *old(s),
                    old(s).current_spec().flags & mask,
                )
            } else {
                taken.is_none() && final(s).blocked_on(*old(s), WaitMode::Any(mask))
            },
        {
            s.flag_wait_any(mask)
        };
    scheduler.with(run)
}

/// One round of waiting until any flag of `mask` is set for the current
/// thread, taking a single flag.
///
/// Compared to [`wait_any`], this clears and returns only the lowest of the
/// flags of `mask` that are set, and leaves the others for a later call.
pub fn wait_one<A: Arch>(scheduler: &mut EnsureOnce<Scheduler<A>>, mask: ThreadFlags) -> (taken: Option<
    ThreadFlags,
>)
    requires
        !old(scheduler).in_use(),
        old(scheduler)@.wf(),
        old(scheduler)@.in_thread(),
    ensures
        !final(scheduler).in_use(),
        final(scheduler)@.wf(),
        if old(scheduler)@.current_spec().flags & mask != 0 {
            taken matches Some(bit) && is_lowest_set_bit(
                bit,
                old(scheduler)@.current_spec().flags & mask,
            ) && final(scheduler)@.took_flags(old(scheduler)@, bit)
        } else {
            taken.is_none() && final(scheduler)@.blocked_on(old(scheduler)@, WaitMode::Any(mask))
        },
{
    let run = |s: &mut Scheduler<A>| -> (taken: Option<ThreadFlags>)
        requires
            old(s).wf(),
            old(s).in_thread(),
        ensures
            final(s).wf(),
            if old(s).current_spec().flags & mask != 0 {
                taken matches Some(bit) && is_lowest_set_bit(
                    bit,
                    old(s).current_spec().flags & mask,
                ) && final(s).took_flags(*old(s), bit)
            } else {
                taken.is_none() && final(s).blocked_on(*old(s), WaitMode::Any(mask))
            },
        {
            s.flag_wait_one(mask)
        };
    scheduler.with(run)
}

/// Clears the flags of `mask` for the current thread and returns those of
/// them that were set.
pub fn clear<A: Arch>(scheduler: &mut EnsureOnce<Scheduler<A>>, mask: ThreadFlags) -> (cleared:
    ThreadFlags)
    requires
        !old(scheduler).in_use(),
        old(scheduler)@.wf(),
        old(scheduler)@.current_thread.is_some(),
    ensures
        !final(scheduler).in_use(),
        final(scheduler)@.wf(),
        cleared == old(scheduler)@.current_spec().flags & mask,
        final(scheduler)@.took_flags(old(scheduler)@, mask),
{
    let run = |s: &mut Scheduler<A>| -> (res: ThreadFlags)
        requires
            old(s).wf(),
            old(s).current_thread.is_some(),
        ensures
            final(s).wf(),
            res == old(s).current_spec().flags & mask,
            final(s).took_flags(*old(s), mask),
        {
            let thread = s.current().unwrap();
            let res = thread.flags & mask;
            thread.flags &= !mask;
            proof {
                s.lemma_thread_kept_its_place(*old(s), old(s).current_thread.unwrap());
            }
            res
        };
    scheduler.with(run)
}

/// Returns the flags that are set for the current thread.
pub fn get<A: Arch>(scheduler: &mut EnsureOnce<Scheduler<A>>) -> (flags: ThreadFlags)
    requires
        !old(scheduler).in_use(),
        old(scheduler)@.wf(),
        old(scheduler)@.current_thread.is_some(),
    ensures
        !final(scheduler).in_use(),
        final(scheduler)@ == old(scheduler)@,
        flags == old(scheduler)@.current_spec().flags,
{
    let run = |s: &mut Scheduler<A>| -> (res: ThreadFlags)
        requires
            old(s).wf(),
            old(s).current_thread.is_some(),
        ensures
            *final(s) == *old(s),
            res == old(s).current_spec().flags,
        {
            let flags = s.current().unwrap().flags;
            assert(s.threads =~= old(s).threads);
            flags
        };
    scheduler.with(run)
}

/// Whether `bit` is the lowest bit that is set in `flags`: a single bit,
/// set in `flags`, below which no bit of `flags` is set.
pub open spec fn is_lowest_set_bit(bit: ThreadFlags, flags: ThreadFlags) -> bool {
    &&& bit != 0
    &&& bit & ((bit - 1) as ThreadFlags) == 0
    &&& flags & bit == bit
    &&& flags & ((bit - 1) as ThreadFlags) == 0
}

/// Returns the lowest bit that is set in `flags`, or zero if none is set.
pub fn lowest_set_bit(flags: ThreadFlags) -> (bit: ThreadFlags)
    ensures
        flags != 0 ==> is_lowest_set_bit(bit, flags),
        flags == 0 ==> bit == 0,
{
    let bit = flags & (!flags).wrapping_add(1);
    assert(flags != 0 ==> is_lowest_set_bit(bit, flags)) by (bit_vector)
        requires
            bit == flags & (((!flags + 1) % 0x10000) as u16),
    ;
    assert(flags == 0 ==> bit == 0) by (bit_vector)
        requires
            bit == flags & (((!flags + 1) % 0x10000) as u16),
    ;
    bit
}

/// At most one bit is the lowest set bit of `flags`.
pub proof fn lemma_lowest_set_bit_unique(a: ThreadFlags, b: ThreadFlags, flags: ThreadFlags)
    requires
        is_lowest_set_bit(a, flags),
        is_lowest_set_bit(b, flags),
    ensures
        a == b,
{
    assert(a == b) by (bit_vector)
        requires
            a != 0,
            b != 0,
            flags & a == a,
            flags & b == b,
            flags & ((a - 1) as u16) == 0,
            flags & ((b - 1) as u16) == 0,
    ;
}

/// Taking the flags `taken` from `flags` clears exactly those: none of them
/// is set afterwards, and every other flag is as it was.
pub proof fn lemma_taken_flags_are_cleared(flags: ThreadFlags, taken: ThreadFlags)
    ensures
        (flags & !taken) & taken == 0,
        (flags & !taken) & !taken == flags & !taken,
        (flags & !taken) | (flags & taken) == flags,
{
    assert((flags & !taken) & taken == 0) by (bit_vector);
    assert((flags & !taken) & !taken == flags & !taken) by (bit_vector);
    assert((flags & !taken) | (flags & taken) == flags) by (bit_vector);
}

/// Taking one flag of `mask` leaves the other flags of `mask` that are set
/// for a later call.
pub proof fn lemma_wait_one_leaves_the_rest(flags: ThreadFlags, mask: ThreadFlags, bit: ThreadFlags)
    requires
        is_lowest_set_bit(bit, flags & mask),
    ensures
        flags & bit == bit,
        mask & bit == bit,
        (flags & !bit) & mask == (flags & mask) & !bit,
        (flags & !bit) & bit == 0,
{
    assert(flags & bit == bit && mask & bit == bit) by (bit_vector)
        requires
            (flags & mask) & bit == bit,
    ;
    assert((flags & !bit) & mask == (flags & mask) & !bit) by (bit_vector);
    assert((flags & !bit) & bit == 0) by (bit_vector);
}

/// Whether a thread in state `state` whose flags are `flags` is blocked on
/// flags and has what it waits for.
pub open spec fn wakes(state: ThreadState, flags: ThreadFlags) -> bool {
    state matches ThreadState::FlagBlocked(mode) && mode.satisfied_by(flags)
}

impl<A: Arch> Scheduler<A> {
    /// What holds after the flags of `mask` were set for thread `tid`: the
    /// thread has them in addition to those it had; if it was blocked on
    /// flags and now has what it waited for, it is `Running` and at the
    /// tail of its ready queue, and the CPU port was asked to schedule;
    /// nothing else changed.
    pub open spec fn flags_set(&self, before: Self, tid: ThreadId, mask: ThreadFlags) -> bool {
        let thread = before.threads[tid as int];
        let flags = thread.flags | mask;
        &&& self.current_thread == before.current_thread
        &&& if wakes(thread.state, flags) {
            &&& self.threads@ == before.threads@.update(
                tid as int,
                (Thread { flags, state: ThreadState::Running, ..thread }),
            )
            &&& self.runqueue@ == before.runqueue@.update(
                thread.prio as int,
                before.runqueue@[thread.prio as int].push(tid),
            )
            &&& schedule_requested::<A>()
        } else {
            &&& self.threads@ == before.threads@.update(tid as int, (Thread { flags, ..thread }))
            &&& self.runqueue@ == before.runqueue@
        }
    }

    /// Setting flags wakes a thread exactly if it is blocked on flags and
    /// has what it waits for once the new flags are added: all flags of its
    /// mask if it waits for all, one of them if it waits for any. A thread
    /// that is not woken stays in the state it was in.
    pub proof fn lemma_set_wakes_iff_satisfied(
        self,
        before: Self,
        tid: ThreadId,
        mask: ThreadFlags,
    )
        requires
            Self::is_valid_tid(tid),
            self.flags_set(before, tid, mask),
        ensures
            self.threads[tid as int].flags == before.threads[tid as int].flags | mask,
            before.threads[tid as int].state matches ThreadState::FlagBlocked(WaitMode::All(w))
                ==> (self.threads[tid as int].state == ThreadState::Running <==> (
            before.threads[tid as int].flags | mask) & w == w),
            before.threads[tid as int].state matches ThreadState::FlagBlocked(WaitMode::Any(w))
                ==> (self.threads[tid as int].state == ThreadState::Running <==> (
            before.threads[tid as int].flags | mask) & w != 0),
            self.threads[tid as int].state != ThreadState::Running ==> self.threads[tid as int].state
                == before.threads[tid as int].state,
            !(before.threads[tid as int].state is FlagBlocked) ==> self.threads[tid as int].state
                == before.threads[tid as int].state,
            forall|i: int|
                0 <= i < crate::runqueue::THREAD_COUNT && i != tid ==> #[trigger] self.threads[i]
                    == before.threads[i],
    {
        let thread = before.threads[tid as int];
        let flags = thread.flags | mask;
        if wakes(thread.state, flags) {
            let woken = Thread { flags, state: ThreadState::Running, ..thread };
            assert(self.threads@[tid as int] == woken);
            assert forall|i: int|
                0 <= i < crate::runqueue::THREAD_COUNT && i != tid implies #[trigger] self.threads[i]
                == before.threads[i] by {
                assert(self.threads@[i] == before.threads@[i]);
            }
        } else {
            let kept = Thread { flags, ..thread };
            assert(self.threads@[tid as int] == kept);
            assert forall|i: int|
                0 <= i < crate::runqueue::THREAD_COUNT && i != tid implies #[trigger] self.threads[i]
                == before.threads[i] by {
                assert(self.threads@[i] == before.threads@[i]);
            }
        }
    }

    /// Sets the flags of `mask` for thread `thread_id`, and makes the thread
    /// `Running` if it was blocked on flags that it now has.
    pub fn flag_set(&mut self, thread_id: ThreadId, mask: ThreadFlags)
        requires
            old(self).wf(),
            Self::is_valid_tid(thread_id),
        ensures
            final(self).wf(),
            final(self).flags_set(*old(self), thread_id, mask),
    {
        let thread = self.get_unchecked_mut(thread_id);
        thread.flags |= mask;
        let woken = match thread.state {
            ThreadState::FlagBlocked(mode) => mode.is_satisfied_by(thread.flags),
            _ => false,
        };
        proof {
            self.lemma_thread_kept_its_place(*old(self), thread_id);
        }
        if !woken {
            return ;
        }
        self.set_state(thread_id, ThreadState::Running);
        proof {
            let thread = old(self).threads[thread_id as int];
            assert(self.threads@ =~= old(self).threads@.update(
                thread_id as int,
                (Thread { flags: thread.flags | mask, state: ThreadState::Running, ..thread }),
            ));
        }
    }

    /// What remains to hold after the current thread took the flags `taken`
    /// without blocking: only its flags changed, and `taken` left them.
    pub open spec fn took_flags(&self, before: Self, taken: ThreadFlags) -> bool {
        let tid = before.current_thread.unwrap();
        let thread = before.current_spec();
        &&& self.threads@ == before.threads@.update(
            tid as int,
            (Thread { flags: thread.flags & !taken, ..thread }),
        )
        &&& self.runqueue@ == before.runqueue@
        &&& self.current_thread == before.current_thread
    }

    /// What holds after the current thread blocked with `mode`: only its
    /// state changed, and if it was `Running` it left the ready queue and
    /// the CPU port was asked to schedule.
    pub open spec fn blocked_on(&self, before: Self, mode: WaitMode) -> bool {
        let tid = before.current_thread.unwrap();
        let thread = before.current_spec();
        &&& self.threads@ == before.threads@.update(
            tid as int,
            (Thread { state: ThreadState::FlagBlocked(mode), ..thread }),
        )
        &&& self.runqueue@ == Self::queues_after(
            before.runqueue@,
            tid,
            thread.prio as int,
            thread.state,
            ThreadState::FlagBlocked(mode),
        )
        &&& self.current_thread == before.current_thread
        &&& thread.state == ThreadState::Running ==> schedule_requested::<A>()
    }

    /// One attempt of the current thread to take all flags of `mask`.
    ///
    /// If all of them are set, clears them and returns them. Otherwise
    /// blocks the thread until all of them are set, and returns nothing.
    pub fn flag_wait_all(&mut self, mask: ThreadFlags) -> (taken: Option<ThreadFlags>)
        requires
            old(self).wf(),
            old(self).in_thread(),
        ensures
            final(self).wf(),
            if old(self).current_spec().flags & mask == mask {
                taken == Some(mask) && final(self).took_flags(*old(self), mask)
            } else {
                taken.is_none() && final(self).blocked_on(*old(self), WaitMode::All(mask))
            },
    {
        let thread = self.current().unwrap();
        if thread.flags & mask == mask {
            thread.flags &= !mask;
            proof {
                self.lemma_thread_kept_its_place(*old(self), old(self).current_thread.unwrap());
            }
            Some(mask)
        } else {
            let thread_id = thread.tid;
            assert(self.threads@ =~= old(self).threads@);
            self.set_state(thread_id, ThreadState::FlagBlocked(WaitMode::All(mask)));
            None
        }
    }

    /// One attempt of the current thread to take any flags of `mask`.
    ///
    /// If some of them are set, clears those and returns them. Otherwise
    /// blocks the thread until one of them is set, and returns nothing.
    pub fn flag_wait_any(&mut self, mask: ThreadFlags) -> (taken: Option<ThreadFlags>)
        requires
            old(self).wf(),
            old(self).in_thread(),
        ensures
            final(self).wf(),
            if old(self).current_spec().flags & mask != 0 {
                taken == Some(old(self).current_spec().flags & mask) && final(self).took_flags(
                    *old(self),
                    old(self).current_spec().flags & mask,
                )
            } else {
                taken.is_none() && final(self).blocked_on(*old(self), WaitMode::Any(mask))
            },
    {
        let thread = self.current().unwrap();
        if thread.flags & mask != 0 {
            let res = thread.flags & mask;
            thread.flags &= !res;
            proof {
                self.lemma_thread_kept_its_place(*old(self), old(self).current_thread.unwrap());
            }
            Some(res)
        } else {
            let thread_id = thread.tid;
            assert(self.threads@ =~= old(self).threads@);
            self.set_state(thread_id, ThreadState::FlagBlocked(WaitMode::Any(mask)));
            None
        }
    }

    /// One attempt of the current thread to take one flag of `mask`.
    ///
    /// If some of them are set, clears the lowest of those and returns it,
    /// leaving the others set. Otherwise blocks the thread until one of them
    /// is set, and returns nothing.
    pub fn flag_wait_one(&mut self, mask: ThreadFlags) -> (taken: Option<ThreadFlags>)
        requires
            old(self).wf(),
            old(self).in_thread(),
        ensures
            final(self).wf(),
            if old(self).current_spec().flags & mask != 0 {
                taken matches Some(bit) && is_lowest_set_bit(
                    bit,
                    old(self).current_spec().flags & mask,
                ) && final(self).took_flags(*old(self), bit)
            } else {
                taken.is_none() && final(self).blocked_on(*old(self), WaitMode::Any(mask))
            },
    {
        let thread = self.current().unwrap();
        if thread.flags & mask != 0 {
            let res = lowest_set_bit(thread.flags & mask);
            thread.flags &= !res;
            proof {
                self.lemma_thread_kept_its_place(*old(self), old(self).current_thread.unwrap());
            }
            Some(res)
        } else {
            let thread_id = thread.tid;
            assert(self.threads@ =~= old(self).threads@);
            self.set_state(thread_id, ThreadState::FlagBlocked(WaitMode::Any(mask)));
            None
        }
    }
}

} // verus!
