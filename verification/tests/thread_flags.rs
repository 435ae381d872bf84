use ariel_core::arch::Arch;
use ariel_core::ensure_once::EnsureOnce;
use ariel_core::scheduler::{Scheduler, Switch};
use ariel_core::thread::{Thread, ThreadState};
use ariel_core::thread_flags::{self, lowest_set_bit, WaitMode};

struct Cpu;

impl Arch for Cpu {
    type ThreadData = ();

    const DEFAULT_THREAD_DATA: () = ();

    fn setup_stack(thread: &mut Thread<()>, stack: &mut [u8], _entry: usize, _arg: Option<usize>) {
        thread.sp = stack.len();
    }

    fn schedule() {}

    fn start_threading() {}

    fn wfi() {}
}

/// A scheduler with thread 0 at priority 1, which is the current thread,
/// and thread 1 at priority 0.
fn two_threads() -> EnsureOnce<Scheduler<Cpu>> {
    let mut scheduler = Scheduler::<Cpu>::new();
    let mut stack_a = [0u8; 64];
    let mut stack_b = [0u8; 64];
    assert_eq!(scheduler.create(&mut stack_a, 0x1000, None, 1), Some(0));
    assert_eq!(scheduler.create(&mut stack_b, 0x2000, Some(7), 0), Some(1));
    assert_eq!(scheduler.sched(), Switch::To { from: None, to: 0 });
    EnsureOnce::new(scheduler)
}

fn state_of(scheduler: &mut EnsureOnce<Scheduler<Cpu>>, tid: usize) -> ThreadState {
    scheduler.get_unchecked().threads[tid].state
}

fn flags_of(scheduler: &mut EnsureOnce<Scheduler<Cpu>>, tid: usize) -> u16 {
    scheduler.get_unchecked().threads[tid].flags
}

#[test]
fn wait_all_blocks_until_every_flag_is_set() {
    let mut s = two_threads();
    assert_eq!(thread_flags::wait_all(&mut s, 0b011), None);
    assert_eq!(state_of(&mut s, 0), ThreadState::FlagBlocked(WaitMode::All(0b011)));
    assert_eq!(s.get_unchecked().sched(), Switch::To { from: Some(0), to: 1 });

    thread_flags::set(&mut s, 0, 0b001);
    assert_eq!(state_of(&mut s, 0), ThreadState::FlagBlocked(WaitMode::All(0b011)));
    assert_eq!(s.get_unchecked().sched(), Switch::Stay);

    thread_flags::set(&mut s, 0, 0b010);
    assert_eq!(state_of(&mut s, 0), ThreadState::Running);
    assert_eq!(s.get_unchecked().sched(), Switch::To { from: Some(1), to: 0 });

    assert_eq!(thread_flags::wait_all(&mut s, 0b011), Some(0b011));
    assert_eq!(flags_of(&mut s, 0), 0);
    assert_eq!(state_of(&mut s, 0), ThreadState::Running);
}

#[test]
fn wait_any_is_woken_by_one_flag() {
    let mut s = two_threads();
    assert_eq!(thread_flags::wait_any(&mut s, 0b101), None);
    assert_eq!(state_of(&mut s, 0), ThreadState::FlagBlocked(WaitMode::Any(0b101)));
    assert_eq!(s.get_unchecked().sched(), Switch::To { from: Some(0), to: 1 });

    thread_flags::set(&mut s, 0, 0b100);
    assert_eq!(state_of(&mut s, 0), ThreadState::Running);
    assert_eq!(s.get_unchecked().sched(), Switch::To { from: Some(1), to: 0 });

    assert_eq!(thread_flags::wait_any(&mut s, 0b101), Some(0b100));
    assert_eq!(flags_of(&mut s, 0), 0);
}

#[test]
fn wait_all_takes_only_the_mask() {
    let mut s = two_threads();
    thread_flags::set(&mut s, 0, 0b1111);
    assert_eq!(thread_flags::wait_all(&mut s, 0b0110), Some(0b0110));
    assert_eq!(flags_of(&mut s, 0), 0b1001);
    assert_eq!(state_of(&mut s, 0), ThreadState::Running);
}

#[test]
fn wait_any_takes_the_matched_flags() {
    let mut s = two_threads();
    thread_flags::set(&mut s, 0, 0b1010);
    assert_eq!(thread_flags::wait_any(&mut s, 0b0110), Some(0b0010));
    assert_eq!(flags_of(&mut s, 0), 0b1000);
}

#[test]
fn wait_one_takes_the_lowest_flag_and_leaves_the_rest() {
    let mut s = two_threads();
    thread_flags::set(&mut s, 0, 0b1110);
    assert_eq!(thread_flags::wait_one(&mut s, 0b1100), Some(0b0100));
    assert_eq!(flags_of(&mut s, 0), 0b1010);
    assert_eq!(thread_flags::wait_one(&mut s, 0b1100), Some(0b1000));
    assert_eq!(flags_of(&mut s, 0), 0b0010);
    assert_eq!(thread_flags::wait_one(&mut s, 0b1100), None);
    assert_eq!(state_of(&mut s, 0), ThreadState::FlagBlocked(WaitMode::Any(0b1100)));
    assert_eq!(flags_of(&mut s, 0), 0b0010);
}

#[test]
fn lowest_set_bit_of_some_values() {
    assert_eq!(lowest_set_bit(1), 1);
    assert_eq!(lowest_set_bit(0b1100), 0b0100);
    assert_eq!(lowest_set_bit(0x8000), 0x8000);
    assert_eq!(lowest_set_bit(0xffff), 1);
    assert_eq!(lowest_set_bit(0xff00), 0x0100);
}

#[test]
fn clear_returns_what_was_set() {
    let mut s = two_threads();
    thread_flags::set(&mut s, 0, 0b0101);
    assert_eq!(thread_flags::clear(&mut s, 0b0110), 0b0100);
    assert_eq!(flags_of(&mut s, 0), 0b0001);
    assert_eq!(thread_flags::clear(&mut s, 0b0110), 0);
    assert_eq!(flags_of(&mut s, 0), 0b0001);
}

#[test]
fn get_reads_without_changing() {
    let mut s = two_threads();
    assert_eq!(thread_flags::get(&mut s), 0);
    thread_flags::set(&mut s, 0, 0xa5a5);
    assert_eq!(thread_flags::get(&mut s), 0xa5a5);
    assert_eq!(thread_flags::get(&mut s), 0xa5a5);
    assert!(!s.is_in_use());
}

#[test]
fn set_adds_to_the_flags_of_a_running_thread() {
    let mut s = two_threads();
    thread_flags::set(&mut s, 1, 0b01);
    thread_flags::set(&mut s, 1, 0b10);
    assert_eq!(flags_of(&mut s, 1), 0b11);
    assert_eq!(state_of(&mut s, 1), ThreadState::Running);
    assert_eq!(flags_of(&mut s, 0), 0);
}

#[test]
fn set_that_does_not_match_leaves_the_thread_blocked() {
    let mut s = two_threads();
    assert_eq!(thread_flags::wait_any(&mut s, 0b0011), None);
    thread_flags::set(&mut s, 0, 0b0100);
    assert_eq!(state_of(&mut s, 0), ThreadState::FlagBlocked(WaitMode::Any(0b0011)));
    assert_eq!(flags_of(&mut s, 0), 0b0100);
    assert_eq!(s.get_unchecked().runqueue.get_next(), Some(1));
}

#[test]
fn set_leaves_other_blocked_states_alone() {
    let mut s = two_threads();
    s.get_unchecked().set_state(1, ThreadState::Paused);
    thread_flags::set(&mut s, 1, 0xffff);
    assert_eq!(state_of(&mut s, 1), ThreadState::Paused);
    assert_eq!(flags_of(&mut s, 1), 0xffff);
}

#[test]
fn set_on_an_unused_slot_only_records_the_flags() {
    let mut s = two_threads();
    thread_flags::set(&mut s, 9, 0b101);
    assert_eq!(flags_of(&mut s, 9), 0b101);
    assert_eq!(state_of(&mut s, 9), ThreadState::Invalid);
}

#[test]
fn a_woken_thread_queues_behind_its_peers() {
    let mut scheduler = Scheduler::<Cpu>::new();
    let mut stack = [0u8; 32];
    assert_eq!(scheduler.create(&mut stack, 0, None, 2), Some(0));
    assert_eq!(scheduler.create(&mut stack, 0, None, 2), Some(1));
    assert_eq!(scheduler.create(&mut stack, 0, None, 2), Some(2));
    assert_eq!(scheduler.sched(), Switch::To { from: None, to: 0 });
    let mut s = EnsureOnce::new(scheduler);
    assert_eq!(thread_flags::wait_any(&mut s, 1), None);
    assert_eq!(s.get_unchecked().sched(), Switch::To { from: Some(0), to: 1 });
    thread_flags::set(&mut s, 0, 1);
    assert_eq!(s.get_unchecked().sched(), Switch::Stay);
    s.get_unchecked().set_state(1, ThreadState::Paused);
    assert_eq!(s.get_unchecked().sched(), Switch::To { from: Some(1), to: 2 });
    s.get_unchecked().set_state(2, ThreadState::Paused);
    assert_eq!(s.get_unchecked().sched(), Switch::To { from: Some(2), to: 0 });
}

#[test]
fn wait_mode_conditions() {
    assert!(WaitMode::Any(0b0110).is_satisfied_by(0b0100));
    assert!(!WaitMode::Any(0b0110).is_satisfied_by(0b1001));
    assert!(WaitMode::All(0b0110).is_satisfied_by(0b1110));
    assert!(!WaitMode::All(0b0110).is_satisfied_by(0b0100));
    assert!(WaitMode::All(0).is_satisfied_by(0));
    assert!(!WaitMode::Any(0).is_satisfied_by(0xffff));
}

#[test]
fn wait_all_for_no_flags_returns_at_once() {
    let mut s = two_threads();
    thread_flags::set(&mut s, 0, 0b11);
    assert_eq!(thread_flags::wait_all(&mut s, 0), Some(0));
    assert_eq!(flags_of(&mut s, 0), 0b11);
    assert_eq!(state_of(&mut s, 0), ThreadState::Running);
}

#[test]
fn wait_any_for_no_flags_blocks() {
    let mut s = two_threads();
    thread_flags::set(&mut s, 0, 0xffff);
    assert_eq!(thread_flags::wait_any(&mut s, 0), None);
    assert_eq!(state_of(&mut s, 0), ThreadState::FlagBlocked(WaitMode::Any(0)));
    thread_flags::set(&mut s, 0, 0xffff);
    assert_eq!(state_of(&mut s, 0), ThreadState::FlagBlocked(WaitMode::Any(0)));
    assert_eq!(flags_of(&mut s, 0), 0xffff);
}

#[test]
fn wait_all_with_every_flag() {
    let mut s = two_threads();
    thread_flags::set(&mut s, 0, 0x7fff);
    assert_eq!(thread_flags::wait_all(&mut s, 0xffff), None);
    thread_flags::set(&mut s, 0, 0x8000);
    assert_eq!(state_of(&mut s, 0), ThreadState::Running);
    assert_eq!(thread_flags::wait_all(&mut s, 0xffff), Some(0xffff));
    assert_eq!(flags_of(&mut s, 0), 0);
}
