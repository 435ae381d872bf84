//! Kernel core of a small real-time operating system: a fixed-pool,
//! priority-based thread scheduler and the synchronisation primitives built
//! directly on top of it.
//!
//! - [`scheduler`] holds the thread table, the ready queues of [`runqueue`]
//!   and the choice of the thread that runs; [`thread`] holds the control
//!   blocks.
//! - [`thread_flags`] lets threads wait for flags and lets threads and
//!   interrupt handlers set them.
//! - [`arch`] is what a CPU family has to provide.
//! - [`ensure_once`] guards a value against use by two parties at once, and
//!   [`critical`] runs code with interrupts disabled.
//! - [`event`] is a signal for cooperative tasks.
//! - [`identity`] describes the unique identifier of a device, [`wifi`] the
//!   rounds of the task that keeps a station connected, and [`depfile`] the
//!   dependency files of the build.
//!
//! Everything here is sequential: a function that changes a value takes it
//! by exclusive reference. Sharing the scheduler or an event between
//! threads, tasks and interrupt handlers is left to the caller.

pub mod arch;
pub mod critical;
pub mod depfile;
pub mod ensure_once;
pub mod event;
pub mod identity;
pub mod runqueue;
pub mod scheduler;
pub mod thread;
pub mod thread_flags;
pub mod wifi;
