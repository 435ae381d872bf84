//! A guard that checks at run time that a value is used by one party at a
//! time.

use vstd::prelude::*;
use critical_section::CriticalSection;
use crate::critical::critical;

verus! {

/// A value together with the mark that says whether it is in use.
pub struct EnsureOnce<T> {
    flag: bool,
    inner: T,
}

/// Whether `f` may be called on a value that is `before`.
pub open spec fn may_run<T, F: FnOnce(&mut T) -> R, R>(f: F, before: T) -> bool {
    forall|inner: &mut T| *inner == before ==> call_requires(f, (inner,))
}

/// The answer to an attempt to use a guard that is in use already.
#[derive(Clone, Copy, PartialEq, Eq, Structural, Debug)]
pub struct InUse;

impl<T> View for EnsureOnce<T> {
    type V = T;

    /// The guarded value.
    closed spec fn view(&self) -> T {
        self.inner
    }
}

impl<T> EnsureOnce<T> {
    /// Whether the guarded value is in use.
    pub closed spec fn in_use(&self) -> bool {
        self.flag
    }

    /// This guard with the mark placed: what a user that was let in leaves
    /// for whoever comes while the use lasts.
    pub closed spec fn marked(self) -> Self {
        EnsureOnce { flag: true, inner: self.inner }
    }

    /// This guard with the mark taken off: what a user leaves when the use
    /// has ended.
    pub closed spec fn unmarked(self) -> Self {
        EnsureOnce { flag: false, inner: self.inner }
    }

    /// One use at a time. While a use lasts the guard is marked, so whoever
    /// comes then finds it in use: [`Self::try_acquire`] and
    /// [`Self::try_with`] turn them away, and [`Self::with`] does not admit
    /// the call. Coming again changes nothing of that. When the use has
    /// ended the guard is free, and the next user is let in. None of this
    /// touches the guarded value.
    pub proof fn lemma_one_use_at_a_time(self)
        ensures
            self.marked().in_use(),
            self.marked().marked() == self.marked(),
            !self.marked().unmarked().in_use(),
            !self.unmarked().in_use(),
            self.marked()@ == self@,
            self.unmarked()@ == self@,
            !self.in_use() ==> self.marked().unmarked() == self,
    {
    }

    /// Wraps `inner` in a guard that is not in use.
    pub fn new(inner: T) -> (guard: Self)
        ensures
            !guard.in_use(),
            guard@ == inner,
    {
        EnsureOnce { flag: false, inner }
    }

    /// Tells whether the guarded value is in use.
    pub fn is_in_use(&self) -> (r: bool)
        ensures
            r == self.in_use(),
    {
        self.flag
    }

    /// Marks the value as in use, unless it is in use already. Returns
    /// whether the mark was placed by this call.
    pub fn try_acquire(&mut self) -> (acquired: bool)
        ensures
            acquired == !old(self).in_use(),
            *final(self) == old(self).marked(),
            final(self).in_use(),
            final(self)@ == old(self)@,
    {
        let was_in_use = self.flag;
        self.flag = true;
        !was_in_use
    }

    /// Marks the value as no longer in use.
    pub fn release(&mut self)
        ensures
            *final(self) == old(self).unmarked(),
            !final(self).in_use(),
            final(self)@ == old(self)@,
    {
        self.flag = false;
    }

    /// Runs `f` on the guarded value while it is marked as in use: the mark
    /// is placed as by [`Self::try_acquire`], `f` runs, and the mark is
    /// taken off as by [`Self::release`]. The caller is inside a critical
    /// section already, as `_cs` proves.
    ///
    /// The value must not be in use: a second use at the same time is an
    /// error of the program, which [`Self::try_with`] reports.
    pub fn with_cs<F, R>(&mut self, _cs: CriticalSection<'_>, f: F) -> (r: R) where
        F: FnOnce(&mut T) -> R,

        requires
            !old(self).in_use(),
            may_run(f, old(self)@),
        ensures
            !final(self).in_use(),
            exists|inner: &mut T|
                *inner == old(self)@ && *final(inner) == final(self)@
                    && call_ensures(f, (inner,), r),
    {
        let acquired = self.try_acquire();
        assert(acquired);
        let res = f(&mut self.inner);
        self.release();
        res
    }

    /// Runs `f` on the guarded value, inside a critical section and while
    /// the value is marked as in use. Afterwards it is free for the next
    /// user.
    ///
    /// The value must not be in use: a second use at the same time is an
    /// error of the program, which [`Self::try_with`] reports.
    pub fn with<F, R>(&mut self, f: F) -> (r: R) where F: FnOnce(&mut T) -> R
        requires
            !old(self).in_use(),
            may_run(f, old(self)@),
        ensures
            !final(self).in_use(),
            exists|inner: &mut T|
                *inner == old(self)@ && *final(inner) == final(self)@
                    && call_ensures(f, (inner,), r),
    {
        let run = |cs: CriticalSection<'_>, guard: &mut EnsureOnce<T>| -> (r: R)
            requires
                !old(guard).in_use(),
                may_run(f, old(guard)@),
            ensures
                !final(guard).in_use(),
                exists|inner: &mut T|
                    *inner == old(guard)@ && *final(inner) == final(guard)@
                        && call_ensures(f, (inner,), r),
            {
                guard.with_cs(cs, f)
            };
        critical(self, run)
    }

    /// Like [`Self::with`], but gives up where that would fail: if the
    /// value is in use, `f` is not called and nothing changes.
    pub fn try_with<F, R>(&mut self, f: F) -> (r: Result<R, InUse>) where F: FnOnce(&mut T) -> R
        requires
            !old(self).in_use() ==> may_run(f, old(self)@),
        ensures
            r.is_err() == old(self).in_use(),
            final(self).in_use() == old(self).in_use(),
            r.is_err() ==> final(self)@ == old(self)@,
            r matches Ok(value) ==> exists|inner: &mut T|
                *inner == old(self)@ && *final(inner) == final(self)@
                    && call_ensures(f, (inner,), value),
    {
        if self.flag {
            Err(InUse)
        } else {
            Ok(self.with(f))
        }
    }

    /// Hands out the guarded value without looking at the mark. The caller
    /// answers for there being no other user.
    pub fn get_unchecked(&mut self) -> (inner: &mut T)
        ensures
            *inner == old(self)@,
            final(self)@ == *final(inner),
            final(self).in_use() == old(self).in_use(),
    {
        &mut self.inner
    }
}

} // verus!
