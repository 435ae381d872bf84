use ariel_core::arch::Arch;
use ariel_core::scheduler::Scheduler;
use ariel_core::thread::{Thread, ThreadState};
use std::sync::atomic::{AtomicUsize, Ordering};

static REQUESTS: AtomicUsize = AtomicUsize::new(0);

struct Counting;

impl Arch for Counting {
    type ThreadData = ();

    const DEFAULT_THREAD_DATA: () = ();

    fn setup_stack(_: &mut Thread<()>, _: &mut [u8], _: usize, _: Option<usize>) {}

    fn schedule() {
        REQUESTS.fetch_add(1, Ordering::SeqCst);
    }

    fn start_threading() {}

    fn wfi() {}
}

#[test]
fn a_change_of_the_ready_queue_asks_for_a_switch() {
    let mut scheduler = Scheduler::<Counting>::new();
    let mut stack = [0u8; 8];
    assert_eq!(REQUESTS.load(Ordering::SeqCst), 0);
    scheduler.create(&mut stack, 0, None, 1);
    assert_eq!(REQUESTS.load(Ordering::SeqCst), 1);
    scheduler.set_state(0, ThreadState::Paused);
    assert_eq!(REQUESTS.load(Ordering::SeqCst), 2);
    scheduler.set_state(0, ThreadState::LockBlocked);
    assert_eq!(REQUESTS.load(Ordering::SeqCst), 2);
    scheduler.flag_set(0, 1);
    assert_eq!(REQUESTS.load(Ordering::SeqCst), 2);
    scheduler.set_state(0, ThreadState::Running);
    assert_eq!(REQUESTS.load(Ordering::SeqCst), 3);
    scheduler.set_state(0, ThreadState::Running);
    assert_eq!(REQUESTS.load(Ordering::SeqCst), 3);
}
