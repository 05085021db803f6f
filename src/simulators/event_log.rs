//! A simulator that realises nothing and records the events it is given.
use vstd::prelude::*;

use crate::simulator::Simulate;

verus! {

/// Records, in order, every event of type `E` that it is asked to realise.
///
/// Its view is that record: the trace of everything played against it. To log what another
/// simulator is given while it realises it, play against the pair `(logger, simulator)`.
pub struct EventLogger<E> {
    pub data: Vec<E>,
}

impl<E> View for EventLogger<E> {
    type V = Seq<E>;

    open spec fn view(&self) -> Seq<E> {
        self.data@
    }
}

impl<E> EventLogger<E> {
    /// A logger with an empty record.
    pub fn new() -> (r: EventLogger<E>)
        ensures
            r@ == Seq::<E>::empty(),
    {
        EventLogger { data: Vec::new() }
    }

    /// The events recorded so far, oldest first.
    pub fn events(&self) -> (r: &[E])
        ensures
            r@ == self@,
    {
        self.data.as_slice()
    }
}

impl<E> Simulate<E> for EventLogger<E> {
    open spec fn simulated(state: Seq<E>, event: E) -> Seq<E> {
        state.push(event)
    }

    fn simulate(&mut self, event: E) {
        self.data.push(event);
    }
}

} // verus!
