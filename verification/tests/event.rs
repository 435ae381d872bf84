use ariel_core::event::Event;
use std::future::Future;
use std::sync::atomic::{AtomicUsize, Ordering};
use std::sync::Arc;
use std::task::{Context, Poll, Wake, Waker};

struct Wakeups(AtomicUsize);

impl Wake for Wakeups {
    fn wake(self: Arc<Self>) {
        self.0.fetch_add(1, Ordering::SeqCst);
    }
}

#[test]
fn new_event_is_unset() {
    assert!(!Event::new().is_set());
    assert!(!Event::default().is_set());
    assert!(Event::new_set().is_set());
}

#[test]
fn set_is_idempotent() {
    let mut event = Event::new();
    event.set();
    assert!(event.is_set());
    event.set();
    assert!(event.is_set());
}

#[test]
fn clear_reports_whether_the_event_was_set() {
    let mut event = Event::new_set();
    assert!(event.clear());
    assert!(!event.is_set());
    assert!(!event.clear());
    assert!(!event.is_set());
    event.set();
    assert!(event.clear());
}

#[test]
fn wait_on_a_set_event_does_not_suspend() {
    let mut event = Event::new_set();
    assert!(event.wait().is_none());
    event.clear();
    assert!(event.wait().is_some());
    event.set();
    assert!(event.wait().is_none());
}

#[test]
fn set_wakes_the_suspended_task_once() {
    let mut event = Event::new();
    let wakeups = Arc::new(Wakeups(AtomicUsize::new(0)));
    let waker = Waker::from(wakeups.clone());
    let mut cx = Context::from_waker(&waker);

    let waiter = event.wait().expect("the event is unset");
    let mut task = Box::pin(waiter.future);
    assert!(task.as_mut().poll(&mut cx).is_pending());
    assert_eq!(wakeups.0.load(Ordering::SeqCst), 0);

    event.set();
    assert_eq!(wakeups.0.load(Ordering::SeqCst), 1);
    assert_eq!(task.as_mut().poll(&mut cx), Poll::Ready(Ok(())));

    event.set();
    assert_eq!(wakeups.0.load(Ordering::SeqCst), 1);
    assert!(event.wait().is_none());
}

#[test]
fn set_wakes_every_waiter() {
    let mut event = Event::new();
    let wakeups = Arc::new(Wakeups(AtomicUsize::new(0)));
    let waker = Waker::from(wakeups.clone());
    let mut cx = Context::from_waker(&waker);

    let mut first = Box::pin(event.wait().expect("the event is unset").future);
    let mut second = Box::pin(event.wait().expect("the event is unset").future);
    assert!(first.as_mut().poll(&mut cx).is_pending());
    assert!(second.as_mut().poll(&mut cx).is_pending());
    event.set();
    assert_eq!(wakeups.0.load(Ordering::SeqCst), 2);
    assert_eq!(first.as_mut().poll(&mut cx), Poll::Ready(Ok(())));
    assert_eq!(second.as_mut().poll(&mut cx), Poll::Ready(Ok(())));
}

#[test]
fn a_waiter_made_before_set_sees_it_without_having_been_polled() {
    let mut event = Event::new();
    let waiter = event.wait().expect("the event is unset");
    event.set();
    let waker = Waker::noop();
    let mut cx = Context::from_waker(waker);
    let mut task = Box::pin(waiter.future);
    assert_eq!(task.as_mut().poll(&mut cx), Poll::Ready(Ok(())));
}

#[test]
fn a_waiter_made_after_clear_waits_for_the_next_set() {
    let mut event = Event::new_set();
    event.clear();
    let waker = Waker::noop();
    let mut cx = Context::from_waker(waker);
    let mut task = Box::pin(event.wait().expect("the event is unset").future);
    assert!(task.as_mut().poll(&mut cx).is_pending());
    event.set();
    assert_eq!(task.as_mut().poll(&mut cx), Poll::Ready(Ok(())));
}
