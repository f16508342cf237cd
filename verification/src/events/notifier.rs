//! Notifiers: broadcast events to the observers that subscribed to them.
//!
//! An observer is held by a handle of type `O` that the notifier only
//! stores and hands back (a weak reference, say), and is known by a key
//! (the address that the handle points to): two subscriptions are of the
//! same observer if their keys are equal. Whether a handle's observer is
//! still alive, and telling it of an event, are the caller's: `broadcast`
//! and `broadcast_next` name the subscriber to tell next and stop where an
//! observer was found gone.
use vstd::prelude::*;
use std::collections::VecDeque;
use std::marker::PhantomData;
use super::event::{Event, EventFilter};

verus! {

broadcast use vstd::std_specs::vecdeque::group_vec_dequeue_axioms;

/// What identifies an observer: the address that its handles point to.
pub type ObserverKey = usize;

/// A subscription: the observer, the filter that picks the events it is
/// told of (`None`: all of them), and metadata handed to it with each.
pub struct Subscriber<F, O, M> {
    pub key: ObserverKey,
    pub observer: O,
    pub filter: Option<F>,
    pub metadata: Option<M>,
}

/// Whether a subscriber is told of an event, from what its filter said of
/// the event (`None`: it has no filter, and is told of every event).
pub fn wants_event(verdict: Option<bool>) -> (r: bool)
    ensures
        r == (verdict != Some(false)),
{
    match verdict {
        None => true,
        Some(v) => v,
    }
}

/// Whether subscriber `s` is told of `event`: it has no filter, or its
/// filter accepts the event.
pub open spec fn wants<E: Event, F: EventFilter<E>, O, M>(s: Subscriber<F, O, M>, event: E) -> bool {
    match s.filter {
        None => true,
        Some(f) => f.accepts(event),
    }
}

/// `next` is the first position from `from` on whose subscriber wants
/// `event`, or `None` where no subscriber from there on wants it.
pub open spec fn is_next_wanting<E: Event, F: EventFilter<E>, O, M>(
    subs: Seq<Subscriber<F, O, M>>,
    event: E,
    from: int,
    next: Option<usize>,
) -> bool {
    match next {
        Some(i) => {
            &&& from <= i < subs.len()
            &&& wants(subs[i as int], event)
            &&& forall|j: int| from <= j < i ==> !wants(#[trigger] subs[j], event)
        },
        None => forall|j: int| from <= j < subs.len() ==> !wants(#[trigger] subs[j], event),
    }
}

/// The first wanting position is unique: two broadcasts over the same
/// subscriptions and event name the same subscriber.
pub proof fn lemma_next_wanting_unique<E: Event, F: EventFilter<E>, O, M>(
    subs: Seq<Subscriber<F, O, M>>,
    event: E,
    from: int,
    a: Option<usize>,
    b: Option<usize>,
)
    requires
        is_next_wanting(subs, event, from, a),
        is_next_wanting(subs, event, from, b),
    ensures
        a == b,
{
    match (a, b) {
        (Some(i), Some(j)) => {
            if i < j {
                assert(!wants(subs[i as int], event));
            } else if j < i {
                assert(!wants(subs[j as int], event));
            }
        },
        (Some(i), None) => {
            assert(!wants(subs[i as int], event));
        },
        (None, Some(j)) => {
            assert(!wants(subs[j as int], event));
        },
        (None, None) => {},
    }
}

/// The subscriptions `subs` without those of the observer `key`, in their
/// order.
pub open spec fn without_observer<F, O, M>(subs: Seq<Subscriber<F, O, M>>, key: ObserverKey) -> Seq<
    Subscriber<F, O, M>,
> {
    subs.filter(|s: Subscriber<F, O, M>| s.key != key)
}

/// After the subscriptions of the observer `key` are ended, none of it is
/// left, so no later broadcast names it; every subscription of another
/// observer is kept.
pub proof fn lemma_del_ends_only_that_observer<F, O, M>(subs: Seq<Subscriber<F, O, M>>, key: ObserverKey)
    ensures
        forall|i: int|
            0 <= i < without_observer(subs, key).len() ==> (#[trigger] without_observer(subs, key)[i]).key
                != key,
        forall|i: int|
            0 <= i < subs.len() && (#[trigger] subs[i]).key != key ==> without_observer(
                subs,
                key,
            ).contains(subs[i]),
{
    let pred = |s: Subscriber<F, O, M>| s.key != key;
    assert forall|i: int| 0 <= i < subs.filter(pred).len() implies (#[trigger] subs.filter(pred)[i]).key != key by {
        subs.lemma_filter_pred(pred, i);
    }
    assert forall|i: int| 0 <= i < subs.len() && (#[trigger] subs[i]).key != key implies subs.filter(pred).contains(subs[i]) by {
        subs.lemma_filter_contains(pred, i);
    }
}

/// Ending the subscriptions of an observer undoes its latest subscription:
/// what is left is what ending them before it subscribed would leave.
pub proof fn lemma_del_undoes_add<F, O, M>(subs: Seq<Subscriber<F, O, M>>, sub: Subscriber<F, O, M>)
    ensures
        without_observer(subs.push(sub), sub.key) == without_observer(subs, sub.key),
{
    reveal(Seq::filter);
    assert(subs.push(sub).drop_last() =~= subs);
}

/// Ending the subscriptions of an observer that has none changes nothing.
pub proof fn lemma_del_absent_observer<F, O, M>(subs: Seq<Subscriber<F, O, M>>, key: ObserverKey)
    requires
        forall|i: int| 0 <= i < subs.len() ==> (#[trigger] subs[i]).key != key,
    ensures
        without_observer(subs, key) == subs,
    decreases subs.len(),
{
    reveal(Seq::filter);
    if subs.len() > 0 {
        let rest = subs.drop_last();
        assert forall|i: int| 0 <= i < rest.len() implies (#[trigger] rest[i]).key != key by {
            assert(rest[i] == subs[i]);
        }
        lemma_del_absent_observer(rest, key);
        assert(subs.last().key != key);
        assert(rest.push(subs.last()) =~= subs);
    }
}

/// The subscribers of a kind of event, in the order in which they
/// subscribed.
pub struct Notifier<E: Event, F: EventFilter<E>, O, M> {
    subscribers: VecDeque<Subscriber<F, O, M>>,
    events: PhantomData<E>,
}

impl<E: Event, F: EventFilter<E>, O, M> Notifier<E, F, O, M> {
    /// The subscriptions, in the order in which they were made.
    pub closed spec fn subscribers(&self) -> Seq<Subscriber<F, O, M>> {
        self.subscribers@
    }

    /// A notifier without subscribers.
    pub fn new() -> (r: Self)
        ensures
            r.subscribers() == Seq::<Subscriber<F, O, M>>::empty(),
    {
        Notifier { subscribers: VecDeque::new(), events: PhantomData }
    }

    /// Subscribes the observer known by `key` and held by `observer`, after
    /// those that subscribed before.
    pub fn add(&mut self, key: ObserverKey, observer: O, filter: Option<F>, metadata: Option<M>)
        ensures
            final(self).subscribers() == old(self).subscribers().push(
                Subscriber { key, observer, filter, metadata },
            ),
    {
        self.subscribers.push_back(Subscriber { key, observer, filter, metadata });
    }

    /// Ends every subscription of the observer known by `key`; the others
    /// keep their order.
    pub fn del(&mut self, key: ObserverKey)
        ensures
            final(self).subscribers() == without_observer(old(self).subscribers(), key),
    {
        let ghost pred = |s: Subscriber<F, O, M>| s.key != key;
        let ghost all = self.subscribers@;
        let mut kept: VecDeque<Subscriber<F, O, M>> = VecDeque::new();
        let mut taken: usize = 0;
        let n = self.subscribers.len();
        while self.subscribers.len() > 0
            invariant
                all.len() == n,
                pred == (|s: Subscriber<F, O, M>| s.key != key),
                taken + self.subscribers@.len() == all.len(),
                self.subscribers@ == all.skip(taken as int),
                kept@ == all.take(taken as int).filter(pred),
            decreases self.subscribers@.len(),
        {
            let s = self.subscribers.pop_front().unwrap();
            let ghost before = kept@;
            proof {
                let prefix = all.take(taken + 1);
                assert(prefix.drop_last() =~= all.take(taken as int));
                assert(prefix.last() == s);
                reveal(Seq::filter);
                assert(prefix.filter(pred) == (if pred(s) {
                    before.push(s)
                } else {
                    before
                }));
            }
            if s.key != key {
                kept.push_back(s);
            }
            taken = taken + 1;
        }
        assert(all.take(taken as int) =~= all);
        self.subscribers = kept;
    }

    /// The number of subscriptions.
    pub fn len(&self) -> (r: usize)
        ensures
            r == self.subscribers().len(),
    {
        self.subscribers.len()
    }

    /// The handle of the observer of subscription `i`.
    pub fn observer(&self, i: usize) -> (r: &O)
        requires
            i < self.subscribers().len(),
        ensures
            *r == self.subscribers()[i as int].observer,
    {
        &self.subscribers[i].observer
    }

    /// The metadata of subscription `i`.
    pub fn metadata(&self, i: usize) -> (r: &Option<M>)
        requires
            i < self.subscribers().len(),
        ensures
            *r == self.subscribers()[i as int].metadata,
    {
        &self.subscribers[i].metadata
    }

    /// The first subscriber from position `from` on that wants `event`,
    /// asking their filters in order and no further than that subscriber.
    fn next_wanting(&self, event: &E, from: usize) -> (r: Option<usize>)
        ensures
            is_next_wanting(self.subscribers(), *event, from as int, r),
    {
        let mut i = from;
        while i < self.subscribers.len()
            invariant
                from <= i,
                forall|j: int| from <= j < i ==> !wants(#[trigger] self.subscribers@[j], *event),
            decreases self.subscribers@.len() - i,
        {
            let verdict = match &self.subscribers[i].filter {
                None => None,
                Some(f) => Some(f.filter(event)),
            };
            if wants_event(verdict) {
                return Some(i);
            }
            i = i + 1;
        }
        None
    }

    /// Starts a broadcast of `event`: the first subscriber to tell of it,
    /// in the order of subscription, skipping those whose filter turns it
    /// down; `None` where no subscriber wants it.
    pub fn broadcast(&self, event: &E) -> (r: Option<usize>)
        ensures
            is_next_wanting(self.subscribers(), *event, 0, r),
    {
        self.next_wanting(event, 0)
    }

    /// Goes on with a broadcast of `event` after subscriber `notified` was
    /// its last one: where that subscriber's observer was found gone, the
    /// broadcast ends there; else the next subscriber after it that wants
    /// the event.
    pub fn broadcast_next(&self, event: &E, notified: usize, observer_alive: bool) -> (r: Option<
        usize,
    >)
        requires
            notified < self.subscribers().len(),
        ensures
            !observer_alive ==> r is None,
            observer_alive ==> is_next_wanting(self.subscribers(), *event, notified + 1, r),
    {
        if !observer_alive {
            return None;
        }
        assert(self.subscribers.len() == self.subscribers@.len());
        self.next_wanting(event, notified + 1)
    }
}

} // verus!
