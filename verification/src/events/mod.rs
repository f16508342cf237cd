//! Event primitives: host event fds, waiters and wakers, waiter queues and
//! notifiers that broadcast events to their observers.
pub mod event;
pub mod host_event_fd;
pub mod notifier;
pub mod observer;
pub mod waiter;
pub mod waiter_queue;
