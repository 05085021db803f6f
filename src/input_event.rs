//! The atomic events and the inversion relation.
use vstd::prelude::*;

use crate::simulatable::Simulatable;
use crate::simulator::Simulate;

verus! {

/// An event that has an inverse, which undoes it: key down and key up, for instance.
pub trait Invert: Sized {
    type Output;

    /// The inverse of `self`.
    spec fn inverse(self) -> Self::Output;

    fn invert(self) -> (r: Self::Output)
        ensures
            r == self.inverse(),
    ;
}

/// The input `input` is to be set to the absolute value `to`.
#[derive(Debug, Clone, Copy, PartialEq, Eq, PartialOrd, Ord, Hash)]
pub struct SetTo<I, V> {
    pub input: I,
    pub to: V,
}

impl<I, V> SetTo<I, V> {
    pub fn new(input: I, to: V) -> (r: SetTo<I, V>)
        ensures
            r == (SetTo { input, to }),
    {
        SetTo { input, to }
    }
}

impl<I, V, S> Simulatable<S> for SetTo<I, V> where S: Simulate<SetTo<I, V>> {
    open spec fn played(self, before: S::V) -> S::V {
        S::simulated(before, self)
    }

    fn run_with(self, simulator: &mut S) {
        simulator.simulate(self)
    }
}

impl<I> Invert for SetTo<I, bool> {
    type Output = SetTo<I, bool>;

    open spec fn inverse(self) -> SetTo<I, bool> {
        SetTo { input: self.input, to: !self.to }
    }

    fn invert(self) -> (r: SetTo<I, bool>) {
        let SetTo { input, to } = self;
        SetTo { input, to: !to }
    }
}

/// The input `input` is to change by the relative amount `by`.
#[derive(Debug, Clone, Copy, PartialEq, Eq, PartialOrd, Ord, Hash)]
pub struct ChangeBy<I, V> {
    pub input: I,
    pub by: V,
}

impl<I, V> ChangeBy<I, V> {
    pub fn new(input: I, by: V) -> (r: ChangeBy<I, V>)
        ensures
            r == (ChangeBy { input, by }),
    {
        ChangeBy { input, by }
    }
}

impl<I, V, S> Simulatable<S> for ChangeBy<I, V> where S: Simulate<ChangeBy<I, V>> {
    open spec fn played(self, before: S::V) -> S::V {
        S::simulated(before, self)
    }

    fn run_with(self, simulator: &mut S) {
        simulator.simulate(self)
    }
}

} // verus!
