//! An event that cooperative tasks can wait for.
//!
//! An [`Event`] holds one bit. Tasks wait until the bit is set; setting it
//! wakes all of them. A task that asks to wait takes its place among the
//! waiters before it looks at the bit, so a wakeup that happens in between is
//! not lost.

use vstd::prelude::*;
use critical_section::CriticalSection;
use maitake_sync::wait_queue::WaitOwned;
use maitake_sync::WaitQueue;
use std::sync::Arc;
use crate::critical::critical;

verus! {

/// The tasks that wait for an event: a `WaitQueue` of `maitake_sync`.
///
/// Which tasks are queued changes behind shared references, as their
/// futures are polled and dropped, so nothing is said here about them. What
/// is said is how the queue counts its wake-alls: see [`wake_alls`].
#[verifier::external_body]
pub struct WaitList {
    queue: Arc<WaitQueue>,
}

/// A place among the waiters of an event, taken when the waiter was made.
#[verifier::external_body]
pub struct Waiter {
    /// The future of `maitake_sync` that completes when the waiters are
    /// woken.
    pub future: WaitOwned,
}

/// The number that the queue of `list` keeps of the times that all its
/// waiters were woken together. Only `WaitQueue::wake_all` changes it.
pub uninterp spec fn wake_alls(list: WaitList) -> nat;

/// The number of wake-alls that the queue had counted when `waiter` was made.
/// The future of a waiter completes at its first poll if the queue has
/// counted another number by then.
pub uninterp spec fn made_at(waiter: Waiter) -> nat;

impl WaitList {
    /// Makes an empty list, with `WaitQueue::new`.
    #[verifier::external_body]
    pub(crate) fn new() -> (list: Self) {
        WaitList { queue: Arc::new(WaitQueue::new()) }
    }

    /// Calls `WaitQueue::wake_all`, which wakes every queued waiter and
    /// moves the count of wake-alls on. The contract claims only the
    /// second: the count is another than before. The queue adds one to it,
    /// in a field that wraps, so no more than that is claimed.
    #[verifier::external_body]
    pub(crate) fn wake_all(&mut self)
        ensures
            wake_alls(*final(self)) != wake_alls(*old(self)),
    {
        self.queue.wake_all()
    }

    /// Calls `WaitQueue::wait_owned`, which makes a waiter and stores in it
    /// the count of wake-alls that the queue has at that moment. The
    /// contract claims that the waiter holds this count.
    #[verifier::external_body]
    pub(crate) fn wait(&self) -> (waiter: Waiter)
        ensures
            made_at(waiter) == wake_alls(*self),
    {
        Waiter { future: self.queue.wait_owned() }
    }
}

#[derive(Clone, Copy, PartialEq, Eq, Structural, Debug)]
enum LockState {
    Locked,
    Unlocked,
}

/// An event that tasks can wait for until it is set.
pub struct Event {
    state: LockState,
    wq: WaitList,
}

impl View for Event {
    type V = bool;

    /// Whether the event is set.
    closed spec fn view(&self) -> bool {
        self.state == LockState::Unlocked
    }
}

impl Event {
    /// The number that the event keeps of the times that it woke its
    /// waiters.
    pub closed spec fn wakeups(&self) -> nat {
        wake_alls(self.wq)
    }

    /// Whether `waiter` was woken by this event since it was made, so that
    /// its future completes when it is polled: the event has counted
    /// another number of wakeups than when the waiter was made.
    pub open spec fn due(&self, waiter: Waiter) -> bool {
        self.wakeups() != made_at(waiter)
    }

    /// A waiter that was made while the event was not set is due once the
    /// event was set.
    pub proof fn lemma_waiter_made_before_set_is_due(self, before: Self, waiter: Waiter)
        requires
            !before@,
            made_at(waiter) == before.wakeups(),
            self.wakeups() != before.wakeups(),
        ensures
            self.due(waiter),
    {
    }

    /// Creates an event that is not set.
    pub fn new() -> (event: Self)
        ensures
            !event@,
    {
        Event { state: LockState::Locked, wq: WaitList::new() }
    }

    /// Creates an event that is set.
    pub fn new_set() -> (event: Self)
        ensures
            event@,
    {
        Event { state: LockState::Unlocked, wq: WaitList::new() }
    }

    /// Returns whether the event is set.
    pub fn is_set(&self) -> (set: bool)
        ensures
            set == self@,
    {
        let run = |_cs: CriticalSection<'_>, event: &Event| -> (set: bool)
            ensures
                set == event@,
            {
                event.state == LockState::Unlocked
            };
        critical(self, run)
    }

    /// Starts to wait for the event to be set.
    ///
    /// Returns nothing if the event is set: the caller goes on at once.
    /// Otherwise returns the waiter whose future the caller has to await;
    /// it completes when the event is set.
    ///
    /// The waiter is made before the event is looked at, so that it is also
    /// woken if the event is set in between.
    pub fn wait(&self) -> (waiter: Option<Waiter>)
        ensures
            waiter.is_none() == self@,
            waiter matches Some(made) ==> made_at(made) == self.wakeups() && !self.due(made),
    {
        let waiter = self.wq.wait();
        if !self.is_set() {
            Some(waiter)
        } else {
            None
        }
    }

    /// Clears the event. Returns whether it was set.
    pub fn clear(&mut self) -> (was_set: bool)
        ensures
            was_set == old(self)@,
            !final(self)@,
            final(self).wakeups() == old(self).wakeups(),
            !old(self)@ ==> *final(self) == *old(self),
    {
        let run = |_cs: CriticalSection<'_>, event: &mut Event| -> (was_set: bool)
            ensures
                was_set == old(event)@,
                !final(event)@,
                final(event).wakeups() == old(event).wakeups(),
                !old(event)@ ==> *final(event) == *old(event),
            {
                match event.state {
                    LockState::Unlocked => {
                        event.state = LockState::Locked;
                        true
                    },
                    LockState::Locked => false,
                }
            };
        critical(self, run)
    }

    /// Sets the event. If it was not set, all waiters are woken, so that
    /// every waiter made since the last wakeup is due; if it was set
    /// already, nothing happens.
    pub fn set(&mut self)
        ensures
            final(self)@,
            old(self)@ ==> *final(self) == *old(self),
            !old(self)@ ==> final(self).wakeups() != old(self).wakeups(),
            forall|waiter: Waiter|
                !old(self)@ && #[trigger] made_at(waiter) == old(self).wakeups()
                    ==> final(self).due(waiter),
    {
        let run = |_cs: CriticalSection<'_>, event: &mut Event|
            ensures
                final(event)@,
                old(event)@ ==> *final(event) == *old(event),
                !old(event)@ ==> final(event).wakeups() != old(event).wakeups(),
            {
                match event.state {
                    LockState::Unlocked => {},
                    LockState::Locked => {
                        event.wq.wake_all();
                        event.state = LockState::Unlocked;
                    },
                }
            };
        critical(self, run)
    }
}

impl Default for Event {
    /// Creates an event that is not set.
    fn default() -> (event: Self)
        ensures
            !event@,
    {
        Event::new()
    }
}

} // verus!
