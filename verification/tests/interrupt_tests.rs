use libos::error::Error;
use libos::interrupt::{
    count_delivered, interrupt_targets, should_interrupt_thread, ThreadInterruptState, Tkill,
    INTERRUPT_SIGNUM,
};

fn thread(forced: bool, own: bool, process: bool, tid: Option<i32>) -> ThreadInterruptState {
    ThreadInterruptState {
        process_forced_to_exit: forced,
        has_pending_signals: own,
        process_has_pending_signals: process,
        host_tid: tid,
    }
}

#[test]
fn interrupt_reasons() {
    assert!(!should_interrupt_thread(&thread(false, false, false, Some(1))));
    assert!(should_interrupt_thread(&thread(true, false, false, Some(1))));
    assert!(should_interrupt_thread(&thread(false, true, false, None)));
    assert!(should_interrupt_thread(&thread(false, false, true, None)));
}

#[test]
fn targets_are_interrupted_threads_on_host_threads() {
    let threads = vec![
        thread(true, false, false, Some(10)),
        thread(false, false, false, Some(11)),
        thread(false, true, false, None),
        thread(false, false, true, Some(13)),
    ];
    assert_eq!(
        interrupt_targets(&threads),
        vec![
            Tkill { host_tid: 10, signum: INTERRUPT_SIGNUM },
            Tkill { host_tid: 13, signum: 64 },
        ]
    );
    assert!(interrupt_targets(&Vec::new()).is_empty());
}

#[test]
fn delivered_counts_successes() {
    assert_eq!(count_delivered(&vec![0, -1, 0, 3]), 2);
    assert_eq!(count_delivered(&Vec::new()), 0);
}

#[test]
fn error_carries_errno() {
    assert_eq!(Error::new(22).errno(), 22);
    assert_eq!(Error::new(22), Error::new(22));
}
