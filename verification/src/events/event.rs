//! What an event is, and what decides whether an observer hears of one.
use vstd::prelude::*;

verus! {

/// An event that notifiers broadcast.
pub trait Event: Copy + Clone + Send + 'static {}

/// Decides which events a subscriber of a notifier is told of.
///
/// An implementation says, in `accepts`, which events the filter lets
/// through, and `filter` answers by it: the answer depends on the filter and
/// the event alone.
pub trait EventFilter<E: Event>: Send + 'static {
    /// Whether this filter lets `event` through.
    spec fn accepts(&self, event: E) -> bool;

    /// Whether this filter lets `event` through.
    fn filter(&self, event: &E) -> (r: bool)
        ensures
            r == self.accepts(*event),
    ;
}

} // verus!
