//! Verified core of a library OS: the event primitives (waiters, wakers,
//! waiter queues and notifiers), memory-area permissions and ranges, the
//! choice of threads that get an interrupt, and address alignment.
pub mod prelude;
pub mod error;
pub mod events;
pub mod interrupt;
pub mod time;
pub mod vm;
