use libos::events::host_event_fd::{within_timer_slack, HostEventFd, PollRequest};
use libos::time::{timer_slack, Duration, NANOS_PER_SEC, TIMERSLACK_NANOS};

#[test]
fn duration_parts() {
    let d = Duration::new(3, 5);
    assert_eq!(d.as_secs(), 3);
    assert_eq!(d.subsec_nanos(), 5);
}

#[test]
fn checked_add_carries_nanoseconds() {
    let a = Duration::new(1, NANOS_PER_SEC - 1);
    let b = Duration::new(0, 2);
    let s = a.checked_add(&b).unwrap();
    assert_eq!((s.as_secs(), s.subsec_nanos()), (2, 1));
}

#[test]
fn checked_add_overflow_is_none() {
    let max = Duration::new(u64::MAX, NANOS_PER_SEC - 1);
    assert!(max.checked_add(&Duration::new(0, 1)).is_none());
    assert!(max.checked_add(&Duration::new(0, 0)).is_some());
}

#[test]
fn le_compares_spans() {
    assert!(Duration::new(1, 0).le(&Duration::new(1, 0)));
    assert!(Duration::new(0, 999).le(&Duration::new(1, 0)));
    assert!(!Duration::new(2, 0).le(&Duration::new(1, 999_999_999)));
}

#[test]
fn slack_is_fifty_microseconds() {
    assert_eq!(timer_slack().subsec_nanos(), 50_000);
    assert_eq!(TIMERSLACK_NANOS, 50_000);
}

#[test]
fn plausible_remains() {
    let t = Duration::new(1, 0);
    assert!(within_timer_slack(&t, &Duration::new(0, 0)));
    assert!(within_timer_slack(&t, &Duration::new(1, 50_000)));
    assert!(!within_timer_slack(&t, &Duration::new(1, 50_001)));
    let max = Duration::new(u64::MAX, NANOS_PER_SEC - 1);
    assert!(!within_timer_slack(&max, &Duration::new(0, 0)));
}

#[test]
fn poll_copies_timeout() {
    let fd = HostEventFd::new(7);
    let t = Duration::new(2, 0);
    assert_eq!(fd.poll(Some(&t)), PollRequest { host_fd: 7, timeout: Some(t) });
    assert_eq!(fd.poll(None), PollRequest { host_fd: 7, timeout: None });
    assert_eq!(fd.host_fd(), 7);
}

#[test]
fn poll_mut_records_remaining_time() {
    let fd = HostEventFd::new(3);
    let mut t = Duration::new(2, 0);
    fd.poll_mut(&mut t, Duration::new(1, 500));
    assert_eq!((t.as_secs(), t.subsec_nanos()), (1, 500));
}

#[test]
fn new_carries_whole_seconds() {
    let d = Duration::new(1, 2_500_000_000);
    assert_eq!((d.as_secs(), d.subsec_nanos()), (3, 500_000_000));
}

#[test]
fn poll_leaves_timeout_and_counting_poll_updates_copy() {
    let fd = HostEventFd::new(5);
    let d = Duration::new(1, 0);
    let req = fd.poll(Some(&d));
    let mut copy = d;
    fd.poll_mut(&mut copy, Duration::new(0, 10));
    assert_eq!(req.timeout, Some(d));
    assert_eq!((d.as_secs(), d.subsec_nanos()), (1, 0));
    assert_eq!((copy.as_secs(), copy.subsec_nanos()), (0, 10));
}
