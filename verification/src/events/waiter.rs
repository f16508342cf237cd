//! Waiters and wakers. A waiter belongs to one thread, which sleeps on its
//! host event fd until a waker of the waiter sets the woken flag and writes
//! to that fd. The flag is an atomic shared by the waiter and its wakers;
//! what a read of it gives depends on the other threads, so these functions
//! state what holds of every value read, and `next_wait_step` and
//! `wake_notice` say what follows from each value.
use vstd::prelude::*;
use std::marker::PhantomData;
use std::rc::Rc;
use std::sync::Arc;
use std::sync::atomic::{AtomicBool, Ordering};
use super::host_event_fd::{HostEventFd, PollRequest, EventFdWrite, FileDesc, copied};
use crate::time::Duration;

verus! {

/// What a waiting thread does next.
#[derive(Clone, Copy, Debug, PartialEq, Eq)]
pub enum WaitStep {
    /// The waiter has been woken: the wait is over, with success.
    Done,
    /// Sleep in this poll of the host event fd, then ask again.
    Poll(PollRequest),
}

/// The step that follows a read of the woken flag that gave `woken`, where
/// `poll` is the poll to sleep in.
pub fn next_wait_step(woken: bool, poll: PollRequest) -> (step: WaitStep)
    ensures
        step == (if woken { WaitStep::Done } else { WaitStep::Poll(poll) }),
{
    if woken {
        WaitStep::Done
    } else {
        WaitStep::Poll(poll)
    }
}

/// What a wake does after its attempt to set the woken flag from `false` to
/// `true` came back with `outcome`: where it set the flag, one write of 1 to
/// the host event fd `host_fd`; where the flag was already set, nothing.
pub fn wake_notice(outcome: Result<bool, bool>, host_fd: FileDesc) -> (notice: Option<EventFdWrite>)
    ensures
        notice == (if outcome is Ok {
            Some(EventFdWrite { host_fd, value: 1 })
        } else {
            None::<EventFdWrite>
        }),
{
    if outcome.is_ok() {
        Some(EventFdWrite { host_fd, value: 1 })
    } else {
        None
    }
}

/// The state that a waiter shares with its wakers.
pub struct Inner {
    is_woken: AtomicBool,
    host_eventfd: Arc<HostEventFd>,
}

impl Inner {
    /// The host event fd that the waiting thread sleeps on.
    pub closed spec fn host_fd(&self) -> FileDesc {
        self.host_eventfd.host_fd()
    }

    /// Not yet woken, sleeping on `host_eventfd`.
    pub fn new(host_eventfd: Arc<HostEventFd>) -> (r: Inner)
        ensures
            r.host_fd() == host_eventfd.host_fd(),
    {
        let is_woken = AtomicBool::new(false);
        Inner { is_woken, host_eventfd }
    }

    /// Whether the waiter has been woken since it was last reset.
    pub fn is_woken(&self) -> bool {
        self.is_woken.load(Ordering::SeqCst)
    }

    /// Clears the woken flag.
    pub fn reset(&self) {
        self.is_woken.store(false, Ordering::SeqCst);
    }

    /// One turn of the wait loop: `Done` where the flag reads as set, else
    /// a poll of the host event fd for at most `timeout`, which the poll
    /// leaves as it is, so that every turn may sleep as long.
    pub fn wait(&self, timeout: Option<&Duration>) -> (step: WaitStep)
        ensures
            step matches WaitStep::Poll(req) ==> req.host_fd == self.host_fd() && req.timeout
                == copied(timeout),
    {
        let woken = self.is_woken();
        next_wait_step(woken, self.host_eventfd.poll(timeout))
    }

    /// One turn of the wait loop that counts down a timeout: `remain` is
    /// what is left of it, which the caller updates after each poll with
    /// `HostEventFd::poll_mut` and, once the wait is over, hands back.
    pub fn wait_mut(&self, remain: Option<&Duration>) -> (step: WaitStep)
        ensures
            step matches WaitStep::Poll(req) ==> req.host_fd == self.host_fd() && req.timeout
                == copied(remain),
    {
        let woken = self.is_woken();
        next_wait_step(woken, self.host_eventfd.poll(remain))
    }

    /// Sets the woken flag. Where this call is the one that set it, the
    /// host event fd is to be written to, once, with 1.
    pub fn wake(&self) -> (notice: Option<EventFdWrite>)
        ensures
            notice matches Some(w) ==> w == (EventFdWrite { host_fd: self.host_fd(), value: 1 }),
    {
        let outcome = self.is_woken.compare_exchange(false, true, Ordering::SeqCst, Ordering::SeqCst);
        wake_notice(outcome, self.host_eventfd.host_fd())
    }
}

/// The waiting side: belongs to the thread that sleeps, and can be neither
/// sent to nor shared with another thread.
pub struct Waiter {
    inner: Arc<Inner>,
    bound_to_thread: PhantomData<Rc<()>>,
}

/// The waking side: any thread may hold one.
pub struct Waker {
    inner: Arc<Inner>,
}

impl Waiter {
    /// The state shared with this waiter's wakers.
    pub closed spec fn shared(&self) -> Inner {
        *self.inner
    }

    /// A waiter, not yet woken, whose thread sleeps on `host_eventfd`.
    pub fn new(host_eventfd: Arc<HostEventFd>) -> (r: Waiter)
        ensures
            r.shared().host_fd() == host_eventfd.host_fd(),
    {
        Waiter { inner: Arc::new(Inner::new(host_eventfd)), bound_to_thread: PhantomData }
    }

    /// Whether the waiter has been woken since it was last reset.
    pub fn is_woken(&self) -> bool {
        self.inner.is_woken()
    }

    /// Clears the woken flag.
    pub fn reset(&self) {
        self.inner.reset();
    }

    /// One turn of the wait loop (see `Inner::wait`).
    pub fn wait(&self, timeout: Option<&Duration>) -> (step: WaitStep)
        ensures
            step matches WaitStep::Poll(req) ==> req.host_fd == self.shared().host_fd()
                && req.timeout == copied(timeout),
    {
        self.inner.wait(timeout)
    }

    /// One turn of the wait loop that counts down a timeout (see
    /// `Inner::wait_mut`).
    pub fn wait_mut(&self, remain: Option<&Duration>) -> (step: WaitStep)
        ensures
            step matches WaitStep::Poll(req) ==> req.host_fd == self.shared().host_fd()
                && req.timeout == copied(remain),
    {
        self.inner.wait_mut(remain)
    }

    /// A waker of this waiter: it shares this waiter's state.
    pub fn waker(&self) -> (w: Waker)
        ensures
            w.shared() == self.shared(),
    {
        Waker { inner: self.inner.clone() }
    }
}

impl Waker {
    /// The state shared with the waiter.
    pub closed spec fn shared(&self) -> Inner {
        *self.inner
    }

    /// Wakes the waiter (see `Inner::wake`).
    pub fn wake(&self) -> (notice: Option<EventFdWrite>)
        ensures
            notice matches Some(w) ==> w == (EventFdWrite { host_fd: self.shared().host_fd(), value: 1 }),
    {
        self.inner.wake()
    }

    /// Wakes a batch of wakers at once. Not done yet: the wakers are left
    /// as they are.
    pub fn batch_wake(wakers: &[Waker]) {
    }
}

} // verus!
