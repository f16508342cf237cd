//! A host event fd: the file descriptor on which a thread of the library
//! sleeps until it is woken. The host calls themselves (create, read, write,
//! poll, close) are made by the caller; this module holds the descriptor and
//! decides what each call is asked to do and what its answer means.
use vstd::prelude::*;
use crate::time::{Duration, TIMERSLACK_NANOS, max_nanos, timer_slack};

verus! {

/// A host file descriptor.
pub type FileDesc = u32;

/// An event fd of the host.
#[derive(Debug)]
pub struct HostEventFd {
    host_fd: FileDesc,
}

/// A poll of a host event fd: on which descriptor, and for how long at most
/// (`None`: until the fd is written to).
#[derive(Clone, Copy, Debug, PartialEq, Eq)]
pub struct PollRequest {
    pub host_fd: FileDesc,
    pub timeout: Option<Duration>,
}

/// A write of `value` to the host event fd `host_fd`.
#[derive(Clone, Copy, Debug, PartialEq, Eq)]
pub struct EventFdWrite {
    pub host_fd: FileDesc,
    pub value: u64,
}

/// The timeout itself, not a reference to it.
pub open spec fn copied(timeout: Option<&Duration>) -> Option<Duration> {
    match timeout {
        Some(t) => Some(*t),
        None => None,
    }
}

/// The poll that waits on `host_fd` for at most `timeout`.
pub open spec fn poll_request(host_fd: FileDesc, timeout: Option<Duration>) -> PollRequest {
    PollRequest { host_fd, timeout }
}

/// A poll with the timeout `d` asks the host what a counting poll of a
/// fresh copy of `d` asks, and the remainder that the host reports is
/// recorded in that copy alone (`poll_mut`): the copy becomes `remain`,
/// while the poll's own request, and `d`, stay as they were.
pub proof fn lemma_poll_is_counting_poll_of_copy(host_fd: FileDesc, d: Duration, remain: Duration)
    requires
        remain_is_plausible(d, remain),
    ensures
        poll_request(host_fd, copied(Some(&d))) == poll_request(host_fd, Some(d)),
        poll_request(host_fd, copied(Some(&d))).timeout == Some(d),
        remain@ <= d@ + TIMERSLACK_NANOS,
{
}

/// What the host may report as left of `timeout` after a poll: no more than
/// `timeout` and the timer slack together, the two adding up to a span a
/// `Duration` can hold.
pub open spec fn remain_is_plausible(timeout: Duration, remain: Duration) -> bool {
    &&& timeout@ + TIMERSLACK_NANOS <= max_nanos()
    &&& remain@ <= timeout@ + TIMERSLACK_NANOS
}

/// Whether `remain` is a plausible report of what is left of `timeout`
/// after a poll (see `remain_is_plausible`).
pub fn within_timer_slack(timeout: &Duration, remain: &Duration) -> (r: bool)
    ensures
        r == remain_is_plausible(*timeout, *remain),
{
    let slack = timer_slack();
    match timeout.checked_add(&slack) {
        None => false,
        Some(limit) => remain.le(&limit),
    }
}

impl HostEventFd {
    /// Holds the host event fd `host_fd`, which the caller has created.
    pub fn new(host_fd: FileDesc) -> (r: HostEventFd)
        ensures
            r.host_fd() == host_fd,
    {
        HostEventFd { host_fd }
    }

    pub closed spec fn spec_host_fd(&self) -> FileDesc {
        self.host_fd
    }

    /// The host file descriptor.
    #[verifier::when_used_as_spec(spec_host_fd)]
    pub fn host_fd(&self) -> (r: FileDesc)
        ensures
            r == self.host_fd(),
    {
        self.host_fd
    }

    /// The poll that waits on this fd for at most `timeout`. It is given a
    /// copy of the timeout, so what the host reports as left of it does not
    /// reach the caller.
    pub fn poll(&self, timeout: Option<&Duration>) -> (r: PollRequest)
        ensures
            r == poll_request(self.host_fd(), copied(timeout)),
    {
        let timeout = match timeout {
            Some(t) => Some(*t),
            None => None,
        };
        PollRequest { host_fd: self.host_fd, timeout }
    }

    /// After a poll with a timeout has come back, records in `timeout` what
    /// the host reports as left of it, `remain`.
    pub fn poll_mut(&self, timeout: &mut Duration, remain: Duration)
        requires
            remain_is_plausible(*old(timeout), remain),
        ensures
            *final(timeout) == remain,
    {
        *timeout = remain;
    }
}

} // verus!
