//! Thread control blocks.

use vstd::prelude::*;
use crate::runqueue::{RunqueueId, ThreadId};
use crate::thread_flags::{ThreadFlags, WaitMode};

verus! {

/// What a thread is currently doing.
#[derive(Clone, Copy, PartialEq, Eq, Structural, Debug)]
pub enum ThreadState {
    /// The slot is unused: no thread was created in it yet, or its thread
    /// has returned.
    Invalid,
    /// Ready to run, or running.
    Running,
    /// Suspended until it is resumed explicitly.
    Paused,
    /// Waiting for a lock.
    LockBlocked,
    /// Waiting for thread flags.
    FlagBlocked(WaitMode),
    /// Waiting to receive on the channel with the given address.
    ChannelRxBlocked(usize),
    /// Waiting to send on the channel with the given address.
    ChannelTxBlocked(usize),
}

/// The control block of one thread.
#[derive(Clone, Copy)]
pub struct Thread<D> {
    /// Saved stack pointer.
    pub sp: usize,
    /// Current state.
    pub state: ThreadState,
    /// Priority level; a larger number is a higher priority.
    pub prio: RunqueueId,
    /// Index of this control block in the thread table.
    pub tid: ThreadId,
    /// Flags that are set for this thread.
    pub flags: ThreadFlags,
    /// Saved context that only the CPU port understands.
    pub data: D,
}

} // verus!
