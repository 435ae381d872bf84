//! Running code with interrupts and preemption disabled.

use vstd::prelude::*;
use critical_section::CriticalSection;

verus! {

/// The token of `critical_section` that proves that a critical section is
/// active. Nothing is known about what it holds.
#[verifier::external_type_specification]
#[verifier::external_body]
pub struct ExCriticalSection<'cs>(CriticalSection<'cs>);

/// Runs `f` on `arg` inside a critical section and returns what `f`
/// returned.
///
/// Calls `critical_section::with`, which acquires the critical section,
/// calls the closure once with the token and releases the section again.
/// The contract claims exactly that: `f` is called with some token and with
/// `arg`, and its result is handed back.
#[verifier::external_body]
pub(crate) fn critical<A, F, R>(arg: A, f: F) -> (r: R) where
    F: FnOnce(CriticalSection<'_>, A) -> R,

    requires
        forall|cs: CriticalSection<'_>| call_requires(f, (cs, arg)),
    ensures
        exists|cs: CriticalSection<'_>| call_ensures(f, (cs, arg), r),
{
    critical_section::with(|cs| f(cs, arg))
}

} // verus!
