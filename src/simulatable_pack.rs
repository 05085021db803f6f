//! Events bound to a simulator, with their type erased.
use vstd::prelude::*;

use crate::combinator::repeated;
use crate::simulatable::Simulatable;

verus! {

/// An event already bound to the simulator that will realise it.
///
/// Implemented by `Bound`, and by whatever a backend binds through `InputPacker`.
pub trait SimulatablePackInner {
    /// How many times the bound event has been played so far.
    spec fn plays(&self) -> nat;

    /// Whether the bound simulator is in the state that playing the bound event `plays()`
    /// times, from the simulator's state when it was bound, gives.
    spec fn faithful(&self) -> bool;

    /// Play the bound event once against its simulator.
    fn call(&mut self)
        ensures
            final(self).plays() == old(self).plays() + 1,
            old(self).faithful() ==> final(self).faithful(),
    ;
}

/// An event bound to a simulator of its own, which it holds.
pub struct Bound<E, S: View> {
    event: E,
    simulator: S,
    start: Ghost<S::V>,
    count: Ghost<nat>,
}

impl<E, S: View> Bound<E, S> {
    /// The bound event.
    pub closed spec fn event(&self) -> E {
        self.event
    }

    /// The bound simulator.
    pub closed spec fn simulator(&self) -> S {
        self.simulator
    }

    /// The simulator's view when the event was bound to it.
    pub closed spec fn start(&self) -> S::V {
        self.start@
    }

    /// How many times the bound event has been played so far.
    pub closed spec fn count(&self) -> nat {
        self.count@
    }

    /// Bind `event` to `simulator`; nothing is played yet.
    pub fn new(event: E, simulator: S) -> (r: Bound<E, S>)
        ensures
            r.event() == event,
            r.simulator() == simulator,
            r.start() == simulator@,
            r.count() == 0,
    {
        let ghost start = simulator@;
        Bound { event, simulator, start: Ghost(start), count: Ghost(0) }
    }

    /// Give the simulator back.
    pub fn into_simulator(self) -> (r: S)
        ensures
            r == self.simulator(),
    {
        self.simulator
    }
}

impl<E, S> SimulatablePackInner for Bound<E, S> where
    E: Simulatable<S> + Copy + 'static,
    S: View + 'static,
 {
    open spec fn plays(&self) -> nat {
        self.count()
    }

    open spec fn faithful(&self) -> bool {
        self.simulator()@ == repeated::<E, S>(self.event(), self.count(), self.start())
    }

    fn call(&mut self)
        ensures
            final(self).event() == old(self).event(),
            final(self).start() == old(self).start(),
            final(self).simulator()@ == old(self).event().played(old(self).simulator()@),
    {
        let e: E = self.event;
        e.run_with(&mut self.simulator);
        self.count = Ghost(self.count@ + 1);
    }
}

/// A bound event whose type is erased, so that events of different types can be kept together.
pub struct SimulatablePack {
    inner: Box<dyn SimulatablePackInner>,
    count: Ghost<nat>,
}

impl SimulatablePack {
    /// How many times the bound event has been played, counting plays made before it was packed.
    pub closed spec fn plays(&self) -> nat {
        self.count@
    }

    /// Whether the bound event's simulator is in the state its plays so far give.
    pub closed spec fn faithful(&self) -> bool {
        self.inner.faithful()
    }

    /// Erase the type of the bound event `s`. Nothing is played.
    pub fn new<S>(s: S) -> (r: SimulatablePack)
        where S: SimulatablePackInner + 'static,
        ensures
            r.plays() == s.plays(),
    {
        let ghost count = s.plays();
        SimulatablePack { inner: Box::new(s), count: Ghost(count) }
    }

    /// Play the bound event once.
    pub fn call(&mut self)
        ensures
            final(self).plays() == old(self).plays() + 1,
            old(self).faithful() ==> final(self).faithful(),
    {
        self.inner.call();
        self.count = Ghost(self.count@ + 1);
    }
}

/// A backend that binds inputs of type `I` to itself.
pub trait InputPacker<I> {
    fn pack_input(&self, input: I) -> SimulatablePack;
}

/// Binding an input through a packer, written from the input's side.
pub trait PackWith: Sized {
    fn pack_with<P: InputPacker<Self>>(self, packer: &P) -> SimulatablePack;
}

impl<I> PackWith for I {
    fn pack_with<P: InputPacker<Self>>(self, packer: &P) -> SimulatablePack {
        packer.pack_input(self)
    }
}

} // verus!
