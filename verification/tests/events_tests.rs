use std::sync::Arc;

use libos::events::event::{Event, EventFilter};
use libos::events::host_event_fd::{EventFdWrite, HostEventFd, PollRequest};
use libos::events::notifier::Notifier;
use libos::events::waiter::{next_wait_step, wake_notice, WaitStep, Waiter, Waker};
use libos::events::waiter_queue::WaiterQueue;
use libos::time::Duration;

#[derive(Clone, Copy, Debug, PartialEq)]
struct Level(u32);

impl Event for Level {}

struct AtLeast(u32);

impl EventFilter<Level> for AtLeast {
    fn accepts(&self, event: Level) -> bool {
        event.0 >= self.0
    }

    fn filter(&self, event: &Level) -> bool {
        self.accepts(*event)
    }
}

#[derive(Clone, Copy, Debug, PartialEq)]
struct Num(u32);

impl Event for Num {}

struct Odd;

impl EventFilter<Num> for Odd {
    fn accepts(&self, event: Num) -> bool {
        event.0 % 2 == 1
    }

    fn filter(&self, event: &Num) -> bool {
        self.accepts(*event)
    }
}

fn waiter(fd: u32) -> Waiter {
    Waiter::new(Arc::new(HostEventFd::new(fd)))
}

#[test]
fn new_waiter_is_not_woken() {
    let w = waiter(5);
    assert!(!w.is_woken());
}

#[test]
fn first_wake_writes_once_to_host_fd() {
    let w = waiter(5);
    let k = w.waker();
    assert_eq!(k.wake(), Some(EventFdWrite { host_fd: 5, value: 1 }));
    assert!(w.is_woken());
    assert_eq!(k.wake(), None);
    assert_eq!(w.waker().wake(), None);
}

#[test]
fn reset_lets_wake_notify_again() {
    let w = waiter(9);
    assert!(w.waker().wake().is_some());
    w.reset();
    assert!(!w.is_woken());
    assert_eq!(w.waker().wake(), Some(EventFdWrite { host_fd: 9, value: 1 }));
}

#[test]
fn wait_polls_until_woken() {
    let w = waiter(4);
    let t = Duration::new(1, 0);
    assert_eq!(w.wait(Some(&t)), WaitStep::Poll(PollRequest { host_fd: 4, timeout: Some(t) }));
    assert_eq!(w.wait(None), WaitStep::Poll(PollRequest { host_fd: 4, timeout: None }));
    w.waker().wake();
    assert_eq!(w.wait(Some(&t)), WaitStep::Done);
    assert_eq!(w.wait_mut(Some(&t)), WaitStep::Done);
}

#[test]
fn wait_mut_polls_with_what_is_left() {
    let w = waiter(4);
    let left = Duration::new(0, 300);
    assert_eq!(w.wait_mut(Some(&left)), WaitStep::Poll(PollRequest { host_fd: 4, timeout: Some(left) }));
}

#[test]
fn wait_step_follows_flag() {
    let req = PollRequest { host_fd: 1, timeout: None };
    assert_eq!(next_wait_step(true, req), WaitStep::Done);
    assert_eq!(next_wait_step(false, req), WaitStep::Poll(req));
}

#[test]
fn wake_notice_only_when_flag_was_set_here() {
    assert_eq!(wake_notice(Ok(false), 3), Some(EventFdWrite { host_fd: 3, value: 1 }));
    assert_eq!(wake_notice(Err(true), 3), None);
}

#[test]
fn batch_wake_leaves_wakers() {
    let w = waiter(2);
    let wakers: Vec<Waker> = vec![w.waker(), w.waker()];
    Waker::batch_wake(&wakers);
    assert!(!w.is_woken());
}

#[test]
fn queue_counts_and_dequeues_in_order() {
    let mut q = WaiterQueue::new();
    assert!(q.is_empty());
    let a = waiter(1);
    let b = waiter(2);
    let c = waiter(3);
    q.enqueue(&a);
    q.enqueue(&b);
    q.enqueue(&c);
    assert!(!q.is_empty());
    assert_eq!(q.dequeue_and_wake_one(), 1);
    assert_eq!(q.dequeue_and_wake_nr(2), 2);
    assert!(q.is_empty());
}

#[test]
fn empty_queue_dequeues_nothing() {
    let mut q = WaiterQueue::new();
    assert_eq!(q.dequeue_and_wake_one(), 0);
    assert_eq!(q.dequeue_and_wake_all(), 0);
    assert_eq!(q.dequeue_and_wake_nr(usize::MAX), 0);
    assert!(q.is_empty());
}

#[test]
fn dequeued_wakers_are_not_woken_yet() {
    let mut q = WaiterQueue::new();
    let a = waiter(1);
    q.enqueue(&a);
    assert_eq!(q.dequeue_and_wake_nr(1), 1);
    assert!(!a.is_woken());
}

type TestNotifier = Notifier<Level, AtLeast, &'static str, u32>;

fn told(n: &TestNotifier, event: Level, alive: &[bool]) -> Vec<&'static str> {
    let mut out = Vec::new();
    let mut next = n.broadcast(&event);
    while let Some(i) = next {
        let live = alive[i];
        if live {
            out.push(*n.observer(i));
        }
        next = n.broadcast_next(&event, i, live);
    }
    out
}

#[test]
fn broadcast_in_subscription_order_with_filters() {
    let mut n: TestNotifier = Notifier::new();
    n.add(1, "a", None, None);
    n.add(2, "b", Some(AtLeast(5)), Some(7));
    n.add(3, "c", Some(AtLeast(1)), None);
    assert_eq!(n.len(), 3);
    assert_eq!(told(&n, Level(3), &[true, true, true]), vec!["a", "c"]);
    assert_eq!(told(&n, Level(9), &[true, true, true]), vec!["a", "b", "c"]);
    assert_eq!(*n.metadata(1), Some(7));
}

#[test]
fn broadcast_stops_at_gone_observer() {
    let mut n: TestNotifier = Notifier::new();
    n.add(1, "a", None, None);
    n.add(2, "b", None, None);
    n.add(3, "c", None, None);
    assert_eq!(told(&n, Level(0), &[true, false, true]), vec!["a"]);
}

#[test]
fn broadcast_with_no_wanting_subscriber() {
    let mut n: TestNotifier = Notifier::new();
    assert_eq!(n.broadcast(&Level(1)), None);
    n.add(1, "a", Some(AtLeast(10)), None);
    assert_eq!(n.broadcast(&Level(1)), None);
    assert_eq!(n.broadcast(&Level(10)), Some(0));
}

#[test]
fn del_ends_every_subscription_of_observer() {
    let mut n: TestNotifier = Notifier::new();
    n.add(1, "a", None, None);
    n.add(2, "b", None, None);
    n.add(1, "a2", None, None);
    n.add(3, "c", None, None);
    n.del(1);
    assert_eq!(n.len(), 2);
    assert_eq!(told(&n, Level(0), &[true, true]), vec!["b", "c"]);
    n.del(42);
    assert_eq!(n.len(), 2);
}

#[test]
fn del_undoes_add() {
    let mut n: TestNotifier = Notifier::new();
    n.add(1, "a", None, None);
    n.add(2, "b", None, None);
    n.del(2);
    assert_eq!(n.len(), 1);
    assert_eq!(told(&n, Level(0), &[true]), vec!["a"]);
}

#[test]
fn broadcast_names_first_accepting_subscriber() {
    let mut n: Notifier<Num, Odd, &'static str, u8> = Notifier::new();
    n.add(1, "a", Some(Odd), None);
    n.add(2, "b", None, Some(9));
    assert_eq!(n.broadcast(&Num(4)), Some(1));
    assert_eq!(*n.metadata(1), Some(9));
    assert_eq!(n.broadcast_next(&Num(4), 1, true), None);
    assert_eq!(n.broadcast(&Num(3)), Some(0));
    assert_eq!(n.broadcast_next(&Num(3), 0, true), Some(1));
}

#[test]
fn repeated_broadcasts_tell_the_same_subscribers() {
    let mut n: TestNotifier = Notifier::new();
    n.add(1, "a", Some(AtLeast(2)), None);
    n.add(2, "b", None, None);
    n.add(3, "c", Some(AtLeast(7)), None);
    let first = told(&n, Level(5), &[true, true, true]);
    let second = told(&n, Level(5), &[true, true, true]);
    assert_eq!(first, vec!["a", "b"]);
    assert_eq!(first, second);
}

#[test]
fn queue_empty_exactly_when_all_enqueued_are_dequeued() {
    let mut q = WaiterQueue::new();
    let a = waiter(1);
    let mut enqueued = 0usize;
    let mut dequeued = 0usize;
    for _ in 0..4 {
        q.enqueue(&a);
        enqueued += 1;
    }
    dequeued += q.dequeue_and_wake_nr(3);
    assert!(!q.is_empty());
    assert_eq!(q.len(), enqueued - dequeued);
    dequeued += q.dequeue_and_wake_one();
    assert_eq!(enqueued, dequeued);
    assert!(q.is_empty());
}
