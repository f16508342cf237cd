//! Those that notifiers tell of events.
use vstd::prelude::*;
use super::event::Event;

verus! {

/// Is told of the events of the notifiers it subscribes to, together with
/// the metadata of its subscription.
pub trait Observer<E: Event, M> {
    fn on_event(&self, event: &E, metadata: &Option<M>);
}

} // verus!
