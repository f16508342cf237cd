//! A queue of wakers, woken in the order in which their waiters were
//! enqueued.
use vstd::prelude::*;
use std::collections::VecDeque;
use super::waiter::{Inner, Waiter, Waker};

verus! {

/// Wakers waiting to be woken, first come first served, with their count.
pub struct WaiterQueue {
    count: usize,
    wakers: VecDeque<Waker>,
}

/// How many wakers `dequeue_and_wake_nr(max_count)` takes from a queue of
/// `len` wakers: none from an empty queue, else `max_count`.
pub open spec fn dequeued_count(len: nat, max_count: usize) -> nat {
    if len == 0 {
        0
    } else {
        max_count as nat
    }
}

/// First come, first woken: a waiter enqueued behind the waiters `queued`
/// is woken once they all have been, and before any enqueued after it.
pub proof fn lemma_first_come_first_woken(queued: Seq<Inner>, waiter: Inner, later: Seq<Inner>)
    ensures
        (queued.push(waiter) + later).skip(queued.len() as int)[0] == waiter,
        (queued.push(waiter) + later).skip(queued.len() as int).len() == later.len() + 1,
{
}

/// A call on a waiter queue: `enqueue` of a waiter, or
/// `dequeue_and_wake_nr` with a `max_count` (`dequeue_and_wake_one` and
/// `dequeue_and_wake_all` are those with 1 and `usize::MAX`).
pub ghost enum QueueOp {
    Enqueue(Inner),
    Dequeue(usize),
}

/// The queue after `op`, as the contracts of the calls give it.
pub open spec fn after_op(queued: Seq<Inner>, op: QueueOp) -> Seq<Inner> {
    match op {
        QueueOp::Enqueue(w) => queued.push(w),
        QueueOp::Dequeue(max_count) => queued.skip(dequeued_count(queued.len(), max_count) as int),
    }
}

/// Whether the call `op` may be made on the queue `queued`.
pub open spec fn op_allowed(queued: Seq<Inner>, op: QueueOp) -> bool {
    match op {
        QueueOp::Enqueue(_) => true,
        QueueOp::Dequeue(max_count) => queued.len() == 0 || max_count <= queued.len(),
    }
}

/// The queue after the calls `ops`, made in order on `queued`.
pub open spec fn after_ops(queued: Seq<Inner>, ops: Seq<QueueOp>) -> Seq<Inner>
    decreases ops.len(),
{
    if ops.len() == 0 {
        queued
    } else {
        after_op(after_ops(queued, ops.drop_last()), ops.last())
    }
}

/// Whether each of the calls `ops` may be made, in order, on `queued`.
pub open spec fn ops_allowed(queued: Seq<Inner>, ops: Seq<QueueOp>) -> bool
    decreases ops.len(),
{
    ops.len() == 0 || (ops_allowed(queued, ops.drop_last()) && op_allowed(
        after_ops(queued, ops.drop_last()),
        ops.last(),
    ))
}

/// How many of the calls `ops` are enqueues.
pub open spec fn enqueues(ops: Seq<QueueOp>) -> nat
    decreases ops.len(),
{
    if ops.len() == 0 {
        0
    } else {
        enqueues(ops.drop_last()) + if ops.last() is Enqueue {
            1nat
        } else {
            0nat
        }
    }
}

/// The sum of what the dequeues among `ops`, made in order on `queued`,
/// return.
pub open spec fn dequeued(queued: Seq<Inner>, ops: Seq<QueueOp>) -> nat
    decreases ops.len(),
{
    if ops.len() == 0 {
        0
    } else {
        dequeued(queued, ops.drop_last()) + match ops.last() {
            QueueOp::Enqueue(_) => 0nat,
            QueueOp::Dequeue(max_count) => dequeued_count(
                after_ops(queued, ops.drop_last()).len(),
                max_count,
            ),
        }
    }
}

/// Every waker enqueued is either still queued or has been dequeued: the
/// queue holds what it held, plus the enqueues, less what the dequeues
/// returned.
pub proof fn lemma_queue_length_accounts(queued: Seq<Inner>, ops: Seq<QueueOp>)
    requires
        ops_allowed(queued, ops),
    ensures
        after_ops(queued, ops).len() + dequeued(queued, ops) == queued.len() + enqueues(ops),
    decreases ops.len(),
{
    if ops.len() > 0 {
        lemma_queue_length_accounts(queued, ops.drop_last());
    }
}

/// A queue that starts empty is empty exactly when as many wakers have been
/// dequeued as enqueued.
pub proof fn lemma_empty_iff_all_dequeued(ops: Seq<QueueOp>)
    requires
        ops_allowed(Seq::empty(), ops),
    ensures
        (after_ops(Seq::empty(), ops).len() == 0) <==> (enqueues(ops) == dequeued(Seq::empty(), ops)),
{
    lemma_queue_length_accounts(Seq::empty(), ops);
}

impl WaiterQueue {
    /// The count is the number of queued wakers.
    pub closed spec fn wf(&self) -> bool {
        self.count == self.wakers@.len()
    }

    /// The waiters whose wakers are queued, first to be woken first.
    pub closed spec fn queued(&self) -> Seq<Inner> {
        self.wakers@.map_values(|w: Waker| w.shared())
    }

    /// An empty queue.
    pub fn new() -> (r: WaiterQueue)
        ensures
            r.wf(),
            r.queued() == Seq::<Inner>::empty(),
    {
        let r = WaiterQueue { count: 0, wakers: VecDeque::new() };
        assert(r.queued() =~= Seq::<Inner>::empty());
        r
    }

    /// Whether no waker is queued.
    pub fn is_empty(&self) -> (r: bool)
        requires
            self.wf(),
        ensures
            r == (self.queued().len() == 0),
    {
        self.count == 0
    }

    /// The number of queued wakers.
    pub fn len(&self) -> (r: usize)
        requires
            self.wf(),
        ensures
            r == self.queued().len(),
    {
        self.count
    }

    /// Queues a waker of `waiter` behind those already queued.
    pub fn enqueue(&mut self, waiter: &Waiter)
        requires
            old(self).wf(),
            old(self).queued().len() < usize::MAX,
        ensures
            final(self).wf(),
            final(self).queued() == old(self).queued().push(waiter.shared()),
            final(self).queued() == after_op(old(self).queued(), QueueOp::Enqueue(waiter.shared())),
    {
        let w = waiter.waker();
        self.count = self.count + 1;
        self.wakers.push_back(w);
        assert(self.queued() =~= old(self).queued().push(waiter.shared()));
    }

    /// Takes the first waker off the queue, if any, and wakes it; returns
    /// how many were taken.
    pub fn dequeue_and_wake_one(&mut self) -> (r: usize)
        requires
            old(self).wf(),
        ensures
            final(self).wf(),
            r == dequeued_count(old(self).queued().len(), 1),
            final(self).queued() == old(self).queued().skip(r as int),
    {
        self.dequeue_and_wake_nr(1)
    }

    /// Takes every waker off the queue and wakes them; returns how many were
    /// taken. All of them are asked for as the first `usize::MAX`, which a
    /// queue of fewer wakers does not hold: only an empty queue is accepted.
    pub fn dequeue_and_wake_all(&mut self) -> (r: usize)
        requires
            old(self).wf(),
            old(self).queued().len() == 0 || usize::MAX <= old(self).queued().len(),
        ensures
            final(self).wf(),
            r == dequeued_count(old(self).queued().len(), usize::MAX),
            final(self).queued() == old(self).queued().skip(r as int),
    {
        self.dequeue_and_wake_nr(usize::MAX)
    }

    /// Takes the first `max_count` wakers off the queue and wakes them;
    /// returns how many were taken. An empty queue gives none; a non-empty
    /// one must hold at least `max_count`.
    pub fn dequeue_and_wake_nr(&mut self, max_count: usize) -> (r: usize)
        requires
            old(self).wf(),
            old(self).queued().len() == 0 || max_count <= old(self).queued().len(),
        ensures
            final(self).wf(),
            r == dequeued_count(old(self).queued().len(), max_count),
            final(self).queued() == old(self).queued().skip(r as int),
            final(self).queued() == after_op(old(self).queued(), QueueOp::Dequeue(max_count)),
    {
        if self.is_empty() {
            assert(self.queued().skip(0) =~= self.queued());
            return 0;
        }
        let mut to_wake: Vec<Waker> = Vec::new();
        while to_wake.len() < max_count
            invariant
                to_wake.len() <= max_count <= old(self).wakers@.len(),
                self.count == old(self).count,
                self.wakers@ == old(self).wakers@.skip(to_wake.len() as int),
            decreases max_count - to_wake.len(),
        {
            let w = self.wakers.pop_front().unwrap();
            to_wake.push(w);
        }
        self.count = self.count - to_wake.len();
        Waker::batch_wake(to_wake.as_slice());
        assert(self.queued() =~= old(self).queued().skip(max_count as int));
        to_wake.len()
    }
}

} // verus!
