//! The contract a backend implements, once per atomic event type it supports.
use vstd::prelude::*;

verus! {

/// A backend that realises atomic events of type `E`.
///
/// Its state is modelled by its view: `simulated` says what the view becomes once the
/// backend has realised one event.
pub trait Simulate<E>: View + Sized {
    /// The simulator's view after it realised `event`, starting from `state`.
    spec fn simulated(state: Self::V, event: E) -> Self::V;

    /// Realise `event`.
    fn simulate(&mut self, event: E)
        ensures
            final(self)@ == Self::simulated(old(self)@, event),
    ;
}

/// Two simulators side by side: each event is realised by the first, then by the second.
impl<E, S0, S1> Simulate<E> for (S0, S1) where E: Copy, S0: Simulate<E>, S1: Simulate<E> {
    open spec fn simulated(state: (S0::V, S1::V), event: E) -> (S0::V, S1::V) {
        (S0::simulated(state.0, event), S1::simulated(state.1, event))
    }

    fn simulate(&mut self, event: E) {
        self.0.simulate(event);
        self.1.simulate(event);
    }
}

} // verus!

verus! {

/// A backend that may reject events of type `E` it cannot realise.
///
/// A rejection is local: the backend is left as it was and the event comes back unplayed,
/// so the caller may offer it elsewhere, log it or drop it.
pub trait TrySimulate<E>: View + Sized {
    type Error;

    /// Whether a simulator whose view is `state` realises `event` rather than rejecting it.
    spec fn accepts(state: Self::V, event: E) -> bool;

    /// The view after an accepted `event` was realised, starting from `state`.
    spec fn try_simulated(state: Self::V, event: E) -> Self::V;

    /// Realise `event`, or reject it and hand it back.
    fn try_run(&mut self, event: E) -> (r: Result<(), (Self::Error, E)>)
        ensures
            r is Ok <==> Self::accepts(old(self)@, event),
            r is Ok ==> final(self)@ == Self::try_simulated(old(self)@, event),
            r is Err ==> final(self)@ == old(self)@ && (r->Err_0).1 == event,
    ;
}

} // verus!
