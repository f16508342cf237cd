//! Interrupt broadcast: which threads get the signal that tells them of
//! pending interrupts, and how many of them it reached. Sending the signal
//! (a host `tkill`) is the caller's.
use vstd::prelude::*;

verus! {

/// A thread id of the host.
pub type HostTid = i32;

/// The real-time signal that tells a thread of pending interrupts.
pub const INTERRUPT_SIGNUM: i32 = 64;

/// What the broadcast reads of a thread.
#[derive(Clone, Copy, Debug, PartialEq, Eq)]
pub struct ThreadInterruptState {
    /// Its process is being forced to exit.
    pub process_forced_to_exit: bool,
    /// Signals are queued for the thread itself.
    pub has_pending_signals: bool,
    /// Signals are queued for its process.
    pub process_has_pending_signals: bool,
    /// The host thread that runs it, if it runs on one.
    pub host_tid: Option<HostTid>,
}

/// A signal to send to a host thread.
#[derive(Clone, Copy, Debug, PartialEq, Eq)]
pub struct Tkill {
    pub host_tid: HostTid,
    pub signum: i32,
}

/// Whether thread `t` is to be interrupted.
pub open spec fn spec_should_interrupt(t: ThreadInterruptState) -> bool {
    t.process_forced_to_exit || t.has_pending_signals || t.process_has_pending_signals
}

/// Whether the broadcast signals thread `t`: it is to be interrupted and
/// runs on a host thread.
pub open spec fn is_target(t: ThreadInterruptState) -> bool {
    spec_should_interrupt(t) && t.host_tid is Some
}

/// The signal that interrupts thread `t`.
pub open spec fn tkill_of(t: ThreadInterruptState) -> Tkill {
    Tkill { host_tid: t.host_tid->Some_0, signum: INTERRUPT_SIGNUM }
}

/// The signals that a broadcast over `threads` sends, in the order of the
/// threads: one to each thread that it signals.
pub open spec fn spec_targets(threads: Seq<ThreadInterruptState>) -> Seq<Tkill> {
    threads.filter(|t: ThreadInterruptState| is_target(t)).map_values(|t: ThreadInterruptState| tkill_of(t))
}

/// How many of the host's answers `retvals` report success (zero).
pub open spec fn spec_successes(retvals: Seq<i32>) -> nat {
    retvals.filter(|r: i32| r == 0).len()
}

/// Every signal of a broadcast is the interrupt signal, sent to a thread
/// that is to be interrupted; there are no more signals than threads.
pub proof fn lemma_targets_are_interrupted_threads(threads: Seq<ThreadInterruptState>)
    ensures
        spec_targets(threads).len() <= threads.len(),
        forall|i: int|
            0 <= i < spec_targets(threads).len() ==> (#[trigger] spec_targets(threads)[i]).signum
                == INTERRUPT_SIGNUM && exists|j: int|
                0 <= j < threads.len() && spec_should_interrupt(#[trigger] threads[j])
                    && threads[j].host_tid == Some(spec_targets(threads)[i].host_tid),
{
    let p = |t: ThreadInterruptState| is_target(t);
    let picked = threads.filter(p);
    threads.lemma_filter_len(p);
    assert forall|i: int| 0 <= i < spec_targets(threads).len() implies (#[trigger] spec_targets(threads)[i]).signum
            == INTERRUPT_SIGNUM && exists|j: int|
            0 <= j < threads.len() && spec_should_interrupt(#[trigger] threads[j])
                && threads[j].host_tid == Some(spec_targets(threads)[i].host_tid) by {
        threads.lemma_filter_pred(p, i);
        assert(picked.contains(picked[i]));
        threads.lemma_filter_contains_rev(p, picked[i]);
        let j = choose|j: int| 0 <= j < threads.len() && threads[j] == picked[i];
        assert(spec_should_interrupt(threads[j]));
    }
}

/// Each of the three reasons alone is enough to interrupt a thread, adding a
/// reason never takes the interrupt away, and a thread with none of them is
/// left alone.
pub proof fn lemma_interrupt_reasons(t: ThreadInterruptState, u: ThreadInterruptState)
    ensures
        t.process_forced_to_exit ==> spec_should_interrupt(t),
        t.has_pending_signals ==> spec_should_interrupt(t),
        t.process_has_pending_signals ==> spec_should_interrupt(t),
        !t.process_forced_to_exit && !t.has_pending_signals && !t.process_has_pending_signals
            ==> !spec_should_interrupt(t),
        (t.process_forced_to_exit ==> u.process_forced_to_exit) && (t.has_pending_signals
            ==> u.has_pending_signals) && (t.process_has_pending_signals
            ==> u.process_has_pending_signals) && spec_should_interrupt(t) ==> spec_should_interrupt(u),
{
}

/// Every thread that has a reason to be interrupted and runs on a host
/// thread gets the interrupt signal.
pub proof fn lemma_interrupted_threads_are_targets(threads: Seq<ThreadInterruptState>, j: int)
    requires
        0 <= j < threads.len(),
        threads[j].process_forced_to_exit || threads[j].has_pending_signals
            || threads[j].process_has_pending_signals,
        threads[j].host_tid is Some,
    ensures
        spec_targets(threads).contains(
            Tkill { host_tid: threads[j].host_tid->Some_0, signum: INTERRUPT_SIGNUM },
        ),
{
    let p = |t: ThreadInterruptState| is_target(t);
    let f = |t: ThreadInterruptState| tkill_of(t);
    threads.lemma_filter_contains(p, j);
    let picked = threads.filter(p);
    let k = choose|k: int| 0 <= k < picked.len() && picked[k] == threads[j];
    assert(picked.map_values(f)[k] == f(threads[j]));
}

/// Counting successes: none in no answers; one more for an answer of zero
/// put after others, and no more for any other answer.
pub proof fn lemma_successes_count_zeros(retvals: Seq<i32>, r: i32)
    ensures
        spec_successes(Seq::<i32>::empty()) == 0,
        spec_successes(retvals.push(r)) == spec_successes(retvals) + (if r == 0 {
            1int
        } else {
            0int
        }),
{
    reveal(Seq::filter);
    assert(retvals.push(r).drop_last() =~= retvals);
}

/// An answer of all zeros counts every one of them.
pub proof fn lemma_all_successes(retvals: Seq<i32>)
    requires
        forall|i: int| 0 <= i < retvals.len() ==> retvals[i] == 0,
    ensures
        spec_successes(retvals) == retvals.len(),
    decreases retvals.len(),
{
    if retvals.len() > 0 {
        let rest = retvals.drop_last();
        assert forall|i: int| 0 <= i < rest.len() implies rest[i] == 0 by {
            assert(rest[i] == retvals[i]);
        }
        lemma_all_successes(rest);
        lemma_successes_count_zeros(rest, retvals.last());
        assert(rest.push(retvals.last()) =~= retvals);
    }
}

/// A broadcast reaches no more threads than it sent signals to.
pub proof fn lemma_delivered_at_most_sent(retvals: Seq<i32>)
    ensures
        spec_successes(retvals) <= retvals.len(),
{
    retvals.lemma_filter_len(|r: i32| r == 0);
}

/// Whether thread `t` is to be interrupted: its process is being forced to
/// exit, or signals are pending for it or for its process.
pub fn should_interrupt_thread(t: &ThreadInterruptState) -> (r: bool)
    ensures
        r == spec_should_interrupt(*t),
        r == (t.process_forced_to_exit || t.has_pending_signals || t.process_has_pending_signals),
{
    t.process_forced_to_exit || t.has_pending_signals || t.process_has_pending_signals
}

/// The signals to send to interrupt `threads`.
pub fn interrupt_targets(threads: &Vec<ThreadInterruptState>) -> (r: Vec<Tkill>)
    ensures
        r@ == spec_targets(threads@),
{
    let mut targets: Vec<Tkill> = Vec::new();
    let mut i: usize = 0;
    let ghost p = |t: ThreadInterruptState| is_target(t);
    let ghost f = |t: ThreadInterruptState| tkill_of(t);
    while i < threads.len()
        invariant
            i <= threads.len(),
            p == (|t: ThreadInterruptState| is_target(t)),
            f == (|t: ThreadInterruptState| tkill_of(t)),
            targets@ == threads@.take(i as int).filter(p).map_values(f),
        decreases threads.len() - i,
    {
        let t = &threads[i];
        let ghost before = threads@.take(i as int).filter(p);
        proof {
            assert(threads@.take(i + 1).drop_last() =~= threads@.take(i as int));
            reveal(Seq::filter);
            assert(threads@.take(i + 1).filter(p) == (if p(*t) {
                before.push(*t)
            } else {
                before
            }));
            assert(before.push(*t).map_values(f) =~= before.map_values(f).push(f(*t)));
        }
        if should_interrupt_thread(t) {
            match t.host_tid {
                Some(host_tid) => targets.push(Tkill { host_tid, signum: INTERRUPT_SIGNUM }),
                None => {},
            }
        }
        i = i + 1;
    }
    assert(threads@.take(i as int) =~= threads@);
    targets
}

/// How many threads the broadcast reached, from the host's answers to its
/// signals.
pub fn count_delivered(retvals: &Vec<i32>) -> (r: usize)
    ensures
        r == spec_successes(retvals@),
{
    let mut count: usize = 0;
    let mut i: usize = 0;
    let ghost p = |r: i32| r == 0;
    while i < retvals.len()
        invariant
            i <= retvals.len(),
            p == (|r: i32| r == 0),
            count == retvals@.take(i as int).filter(p).len(),
            count <= i,
        decreases retvals.len() - i,
    {
        proof {
            assert(retvals@.take(i + 1).drop_last() =~= retvals@.take(i as int));
            reveal(Seq::filter);
            retvals@.take(i as int).lemma_filter_len(p);
        }
        if retvals[i] == 0 {
            count = count + 1;
        }
        i = i + 1;
    }
    assert(retvals@.take(i as int) =~= retvals@);
    count
}

} // verus!
