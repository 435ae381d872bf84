//! The contract between the scheduler and a CPU port.

use vstd::prelude::*;
use crate::thread::Thread;

verus! {

/// What a CPU family has to provide so that the scheduler can run on it.
pub trait Arch {
    /// Saved context that only the port understands.
    type ThreadData: Copy;

    /// The saved context of a thread that has never run.
    const DEFAULT_THREAD_DATA: Self::ThreadData;

    /// Prepares `stack` so that the first switch to `thread` enters the code
    /// at address `entry` with `arg`, as if the thread had been interrupted
    /// there, and so that returning from it enters the cleanup routine.
    /// Stores the resulting stack pointer and saved context in `thread`.
    fn setup_stack(
        thread: &mut Thread<Self::ThreadData>,
        stack: &mut [u8],
        entry: usize,
        arg: Option<usize>,
    );

    /// Requests a context switch. Does nothing when no switch is needed.
    fn schedule();

    /// Performs the first context switch, out of the boot code.
    fn start_threading();

    /// Puts the CPU to sleep until an interrupt arrives.
    fn wfi();
}

/// Whether the CPU port `A` was asked for a context switch and returned.
pub open spec fn schedule_requested<A: Arch>() -> bool {
    call_ensures(A::schedule, (), ())
}

/// Asks the CPU port for a context switch. The port then lets the scheduler
/// choose the thread to run, and switches if that is not the current one.
pub fn schedule<A: Arch>()
    ensures
        schedule_requested::<A>(),
{
    A::schedule();
}

} // verus!
