//! Things that can be played against a simulator.
use vstd::prelude::*;

use crate::simulator::Simulate;

verus! {

/// An event, atomic or composite, that can be played against a simulator of type `S`.
pub trait Simulatable<S: View>: Sized {
    /// The simulator's view once `self` has been played from the view `before`.
    spec fn played(self, before: S::V) -> S::V;

    /// Play this event, consuming it.
    fn run_with(self, simulator: &mut S)
        ensures
            final(simulator)@ == self.played(old(simulator)@),
    ;
}

} // verus!

verus! {

#[verifier::external_type_specification]
#[verifier::external_body]
pub struct ExVoid(void::Void);

/// An event that may be rejected by the simulator it is played against.
pub trait TrySimulatable<S: View>: Sized {
    type Error;

    /// The view once `self` has been played from `before`, or `None` when it is rejected.
    spec fn try_played(self, before: S::V) -> Option<S::V>;

    /// Play this event; on rejection, the simulator is unchanged and the event comes back.
    fn try_run_with(self, simulator: &mut S) -> (r: Result<(), (Self::Error, Self)>)
        ensures
            r is Ok <==> self.try_played(old(simulator)@) is Some,
            r is Ok ==> self.try_played(old(simulator)@) == Some(final(simulator)@),
            r is Err ==> final(simulator)@ == old(simulator)@ && (r->Err_0).1 == self,
    ;
}

/// Every event that a simulator realises infallibly is also played fallibly, and never rejected.
impl<T, S> TrySimulatable<S> for T where S: Simulate<T> {
    type Error = void::Void;

    open spec fn try_played(self, before: S::V) -> Option<S::V> {
        Some(S::simulated(before, self))
    }

    fn try_run_with(self, simulator: &mut S) -> (r: Result<(), (void::Void, T)>) {
        simulator.simulate(self);
        Ok(())
    }
}

} // verus!
