//! Combinators that build larger events out of smaller ones.
use vstd::prelude::*;

use crate::input_event::Invert;
use crate::simulatable::Simulatable;
use crate::timing::{nanos_of, wait};
use crate::utils::time::millis;

use std::time::Duration;

verus! {

/// The state after playing `event` `times` times in a row, starting from `before`.
pub open spec fn repeated<E: Simulatable<S>, S: View>(event: E, times: nat, before: S::V) -> S::V
    decreases times,
{
    if times == 0 {
        before
    } else {
        event.played(repeated::<E, S>(event, (times - 1) as nat, before))
    }
}

/// The state after playing `events` in order, first to last, starting from `before`.
pub open spec fn played_in_order<E: Simulatable<S>, S: View>(events: Seq<E>, before: S::V) -> S::V
    decreases events.len(),
{
    if events.len() == 0 {
        before
    } else {
        events.last().played(played_in_order::<E, S>(events.drop_last(), before))
    }
}

/// Play `simulate` the given number of times, a fresh copy each time.
#[derive(Debug, Clone, Copy, PartialEq, Eq, PartialOrd, Ord, Hash)]
pub struct Repeat<S> {
    pub simulate: S,
    pub times: usize,
}

impl<E, Smltr: View> Simulatable<Smltr> for Repeat<E> where E: Simulatable<Smltr> + Copy {
    open spec fn played(self, before: Smltr::V) -> Smltr::V {
        repeated::<E, Smltr>(self.simulate, self.times as nat, before)
    }

    fn run_with(self, simulator: &mut Smltr) {
        let mut done: usize = 0;
        while done < self.times
            invariant
                done <= self.times,
                simulator@ == repeated::<E, Smltr>(self.simulate, done as nat, old(simulator)@),
            decreases self.times - done,
        {
            let copy: E = self.simulate;
            copy.run_with(simulator);
            done = done + 1;
        }
    }
}

/// Play `event` only when `condition` holds; otherwise do nothing at all.
#[derive(Debug, Clone, Copy, PartialEq, Eq, PartialOrd, Ord, Hash)]
pub struct OnlyIf<S> {
    pub event: S,
    pub condition: bool,
}

impl<E, Smltr: View> Simulatable<Smltr> for OnlyIf<E> where E: Simulatable<Smltr> {
    open spec fn played(self, before: Smltr::V) -> Smltr::V {
        if self.condition {
            self.event.played(before)
        } else {
            before
        }
    }

    fn run_with(self, simulator: &mut Smltr) {
        if self.condition {
            self.event.run_with(simulator);
        }
    }
}

/// Play `during`, then `simulate`, then the inverse of `during`.
#[derive(Debug, Clone, Copy, PartialEq, Eq, PartialOrd, Ord, Hash)]
pub struct During<DS, S> {
    pub during: DS,
    pub simulate: S,
}

impl<DS, E, Smltr: View> Simulatable<Smltr> for During<DS, E> where
    E: Simulatable<Smltr>,
    DS: Invert + Simulatable<Smltr> + Copy,
    <DS as Invert>::Output: Simulatable<Smltr>,
 {
    open spec fn played(self, before: Smltr::V) -> Smltr::V {
        self.during.inverse().played(self.simulate.played(self.during.played(before)))
    }

    fn run_with(self, simulator: &mut Smltr) {
        let bracket: DS = self.during;
        bracket.run_with(simulator);
        self.simulate.run_with(simulator);
        self.during.invert().run_with(simulator);
    }
}

} // verus!

verus! {

/// Wait for a duration. Waiting leaves every simulator untouched.
#[derive(Debug, Clone, Copy, PartialEq, Eq, PartialOrd, Ord, Hash)]
pub struct Sleep(pub Duration);

impl Sleep {
    pub fn new(duration: Duration) -> (r: Sleep)
        ensures
            r == Sleep(duration),
    {
        Sleep(duration)
    }
}

impl From<Duration> for Sleep {
    fn from(value: Duration) -> (r: Sleep)
        ensures
            r == Sleep(value),
    {
        Sleep::new(value)
    }
}

impl vstd::std_specs::convert::FromSpecImpl<Duration> for Sleep {
    open spec fn obeys_from_spec() -> bool {
        true
    }

    open spec fn from_spec(v: Duration) -> Sleep {
        Sleep(v)
    }
}

impl<Smltr: View> Simulatable<Smltr> for Sleep {
    open spec fn played(self, before: Smltr::V) -> Smltr::V {
        before
    }

    fn run_with(self, simulator: &mut Smltr) {
        let _ = wait(self.0);
    }
}

/// Play the items of a sequence in ascending position, each to its end before the next.
///
/// Implemented for tuples of up to 32 items (nest them for more) and for `Vec`.
#[derive(Debug, Clone, Copy, PartialEq, Eq, PartialOrd, Ord, Hash)]
pub struct Sequence<T>(pub T);

impl<Smltr: View> Simulatable<Smltr> for Sequence<()> {
    open spec fn played(self, before: Smltr::V) -> Smltr::V {
        before
    }

    fn run_with(self, simulator: &mut Smltr) {
    }
}

impl<I0, Smltr: View> Simulatable<Smltr> for Sequence<(I0,)> where
    I0: Simulatable<Smltr>,
 {
    open spec fn played(self, before: Smltr::V) -> Smltr::V {
        let s0 = (self.0).0.played(before);
        s0
    }

    fn run_with(self, simulator: &mut Smltr) {
        let (e0,) = self.0;
        e0.run_with(simulator);
    }
}

impl<I0, I1, Smltr: View> Simulatable<Smltr> for Sequence<(I0, I1)> where
    I0: Simulatable<Smltr>,
    I1: Simulatable<Smltr>,
 {
    open spec fn played(self, before: Smltr::V) -> Smltr::V {
        let s0 = (self.0).0.played(before);
        let s1 = (self.0).1.played(s0);
        s1
    }

    fn run_with(self, simulator: &mut Smltr) {
        let (e0, e1) = self.0;
        e0.run_with(simulator);
        e1.run_with(simulator);
    }
}

impl<I0, I1, I2, Smltr: View> Simulatable<Smltr> for Sequence<(I0, I1, I2)> where
    I0: Simulatable<Smltr>,
    I1: Simulatable<Smltr>,
    I2: Simulatable<Smltr>,
 {
    open spec fn played(self, before: Smltr::V) -> Smltr::V {
        let s0 = (self.0).0.played(before);
        let s1 = (self.0).1.played(s0);
        let s2 = (self.0).2.played(s1);
        s2
    }

    fn run_with(self, simulator: &mut Smltr) {
        let (e0, e1, e2) = self.0;
        e0.run_with(simulator);
        e1.run_with(simulator);
        e2.run_with(simulator);
    }
}

impl<I0, I1, I2, I3, Smltr: View> Simulatable<Smltr> for Sequence<(I0, I1, I2, I3)> where
    I0: Simulatable<Smltr>,
    I1: Simulatable<Smltr>,
    I2: Simulatable<Smltr>,
    I3: Simulatable<Smltr>,
 {
    open spec fn played(self, before: Smltr::V) -> Smltr::V {
        let s0 = (self.0).0.played(before);
        let s1 = (self.0).1.played(s0);
        let s2 = (self.0).2.played(s1);
        let s3 = (self.0).3.played(s2);
        s3
    }

    fn run_with(self, simulator: &mut Smltr) {
        let (e0, e1, e2, e3) = self.0;
        e0.run_with(simulator);
        e1.run_with(simulator);
        e2.run_with(simulator);
        e3.run_with(simulator);
    }
}

impl<I0, I1, I2, I3, I4, Smltr: View> Simulatable<Smltr> for Sequence<(I0, I1, I2, I3, I4)> where
    I0: Simulatable<Smltr>,
    I1: Simulatable<Smltr>,
    I2: Simulatable<Smltr>,
    I3: Simulatable<Smltr>,
    I4: Simulatable<Smltr>,
 {
    open spec fn played(self, before: Smltr::V) -> Smltr::V {
        let s0 = (self.0).0.played(before);
        let s1 = (self.0).1.played(s0);
        let s2 = (self.0).2.played(s1);
        let s3 = (self.0).3.played(s2);
        let s4 = (self.0).4.played(s3);
        s4
    }

    fn run_with(self, simulator: &mut Smltr) {
        let (e0, e1, e2, e3, e4) = self.0;
        e0.run_with(simulator);
        e1.run_with(simulator);
        e2.run_with(simulator);
        e3.run_with(simulator);
        e4.run_with(simulator);
    }
}

impl<I0, I1, I2, I3, I4, I5, Smltr: View> Simulatable<Smltr> for Sequence<(I0, I1, I2, I3, I4, I5)> where
    I0: Simulatable<Smltr>,
    I1: Simulatable<Smltr>,
    I2: Simulatable<Smltr>,
    I3: Simulatable<Smltr>,
    I4: Simulatable<Smltr>,
    I5: Simulatable<Smltr>,
 {
    open spec fn played(self, before: Smltr::V) -> Smltr::V {
        let s0 = (self.0).0.played(before);
        let s1 = (self.0).1.played(s0);
        let s2 = (self.0).2.played(s1);
        let s3 = (self.0).3.played(s2);
        let s4 = (self.0).4.played(s3);
        let s5 = (self.0).5.played(s4);
        s5
    }

    fn run_with(self, simulator: &mut Smltr) {
        let (e0, e1, e2, e3, e4, e5) = self.0;
        e0.run_with(simulator);
        e1.run_with(simulator);
        e2.run_with(simulator);
        e3.run_with(simulator);
        e4.run_with(simulator);
        e5.run_with(simulator);
    }
}

impl<I0, I1, I2, I3, I4, I5, I6, Smltr: View> Simulatable<Smltr> for Sequence<(I0, I1, I2, I3, I4, I5, I6)> where
    I0: Simulatable<Smltr>,
    I1: Simulatable<Smltr>,
    I2: Simulatable<Smltr>,
    I3: Simulatable<Smltr>,
    I4: Simulatable<Smltr>,
    I5: Simulatable<Smltr>,
    I6: Simulatable<Smltr>,
 {
    open spec fn played(self, before: Smltr::V) -> Smltr::V {
        let s0 = (self.0).0.played(before);
        let s1 = (self.0).1.played(s0);
        let s2 = (self.0).2.played(s1);
        let s3 = (self.0).3.played(s2);
        let s4 = (self.0).4.played(s3);
        let s5 = (self.0).5.played(s4);
        let s6 = (self.0).6.played(s5);
        s6
    }

    fn run_with(self, simulator: &mut Smltr) {
        let (e0, e1, e2, e3, e4, e5, e6) = self.0;
        e0.run_with(simulator);
        e1.run_with(simulator);
        e2.run_with(simulator);
        e3.run_with(simulator);
        e4.run_with(simulator);
        e5.run_with(simulator);
        e6.run_with(simulator);
    }
}

impl<I0, I1, I2, I3, I4, I5, I6, I7, Smltr: View> Simulatable<Smltr> for Sequence<(I0, I1, I2, I3, I4, I5, I6, I7)> where
    I0: Simulatable<Smltr>,
    I1: Simulatable<Smltr>,
    I2: Simulatable<Smltr>,
    I3: Simulatable<Smltr>,
    I4: Simulatable<Smltr>,
    I5: Simulatable<Smltr>,
    I6: Simulatable<Smltr>,
    I7: Simulatable<Smltr>,
 {
    open spec fn played(self, before: Smltr::V) -> Smltr::V {
        let s0 = (self.0).0.played(before);
        let s1 = (self.0).1.played(s0);
        let s2 = (self.0).2.played(s1);
        let s3 = (self.0).3.played(s2);
        let s4 = (self.0).4.played(s3);
        let s5 = (self.0).5.played(s4);
        let s6 = (self.0).6.played(s5);
        let s7 = (self.0).7.played(s6);
        s7
    }

    fn run_with(self, simulator: &mut Smltr) {
        let (e0, e1, e2, e3, e4, e5, e6, e7) = self.0;
        e0.run_with(simulator);
        e1.run_with(simulator);
        e2.run_with(simulator);
        e3.run_with(simulator);
        e4.run_with(simulator);
        e5.run_with(simulator);
        e6.run_with(simulator);
        e7.run_with(simulator);
    }
}

impl<I0, I1, I2, I3, I4, I5, I6, I7, I8, Smltr: View> Simulatable<Smltr> for Sequence<(I0, I1, I2, I3, I4, I5, I6, I7, I8)> where
    I0: Simulatable<Smltr>,
    I1: Simulatable<Smltr>,
    I2: Simulatable<Smltr>,
    I3: Simulatable<Smltr>,
    I4: Simulatable<Smltr>,
    I5: Simulatable<Smltr>,
    I6: Simulatable<Smltr>,
    I7: Simulatable<Smltr>,
    I8: Simulatable<Smltr>,
 {
    open spec fn played(self, before: Smltr::V) -> Smltr::V {
        let s0 = (self.0).0.played(before);
        let s1 = (self.0).1.played(s0);
        let s2 = (self.0).2.played(s1);
        let s3 = (self.0).3.played(s2);
        let s4 = (self.0).4.played(s3);
        let s5 = (self.0).5.played(s4);
        let s6 = (self.0).6.played(s5);
        let s7 = (self.0).7.played(s6);
        let s8 = (self.0).8.played(s7);
        s8
    }

    fn run_with(self, simulator: &mut Smltr) {
        let (e0, e1, e2, e3, e4, e5, e6, e7, e8) = self.0;
        e0.run_with(simulator);
        e1.run_with(simulator);
        e2.run_with(simulator);
        e3.run_with(simulator);
        e4.run_with(simulator);
        e5.run_with(simulator);
        e6.run_with(simulator);
        e7.run_with(simulator);
        e8.run_with(simulator);
    }
}

impl<I0, I1, I2, I3, I4, I5, I6, I7, I8, I9, Smltr: View> Simulatable<Smltr> for Sequence<(I0, I1, I2, I3, I4, I5, I6, I7, I8, I9)> where
    I0: Simulatable<Smltr>,
    I1: Simulatable<Smltr>,
    I2: Simulatable<Smltr>,
    I3: Simulatable<Smltr>,
    I4: Simulatable<Smltr>,
    I5: Simulatable<Smltr>,
    I6: Simulatable<Smltr>,
    I7: Simulatable<Smltr>,
    I8: Simulatable<Smltr>,
    I9: Simulatable<Smltr>,
 {
    open spec fn played(self, before: Smltr::V) -> Smltr::V {
        let s0 = (self.0).0.played(before);
        let s1 = (self.0).1.played(s0);
        let s2 = (self.0).2.played(s1);
        let s3 = (self.0).3.played(s2);
        let s4 = (self.0).4.played(s3);
        let s5 = (self.0).5.played(s4);
        let s6 = (self.0).6.played(s5);
        let s7 = (self.0).7.played(s6);
        let s8 = (self.0).8.played(s7);
        let s9 = (self.0).9.played(s8);
        s9
    }

    fn run_with(self, simulator: &mut Smltr) {
        let (e0, e1, e2, e3, e4, e5, e6, e7, e8, e9) = self.0;
        e0.run_with(simulator);
        e1.run_with(simulator);
        e2.run_with(simulator);
        e3.run_with(simulator);
        e4.run_with(simulator);
        e5.run_with(simulator);
        e6.run_with(simulator);
        e7.run_with(simulator);
        e8.run_with(simulator);
        e9.run_with(simulator);
    }
}

impl<I0, I1, I2, I3, I4, I5, I6, I7, I8, I9, I10, Smltr: View> Simulatable<Smltr> for Sequence<(I0, I1, I2, I3, I4, I5, I6, I7, I8, I9, I10)> where
    I0: Simulatable<Smltr>,
    I1: Simulatable<Smltr>,
    I2: Simulatable<Smltr>,
    I3: Simulatable<Smltr>,
    I4: Simulatable<Smltr>,
    I5: Simulatable<Smltr>,
    I6: Simulatable<Smltr>,
    I7: Simulatable<Smltr>,
    I8: Simulatable<Smltr>,
    I9: Simulatable<Smltr>,
    I10: Simulatable<Smltr>,
 {
    open spec fn played(self, before: Smltr::V) -> Smltr::V {
        let s0 = (self.0).0.played(before);
        let s1 = (self.0).1.played(s0);
        let s2 = (self.0).2.played(s1);
        let s3 = (self.0).3.played(s2);
        let s4 = (self.0).4.played(s3);
        let s5 = (self.0).5.played(s4);
        let s6 = (self.0).6.played(s5);
        let s7 = (self.0).7.played(s6);
        let s8 = (self.0).8.played(s7);
        let s9 = (self.0).9.played(s8);
        let s10 = (self.0).10.played(s9);
        s10
    }

    fn run_with(self, simulator: &mut Smltr) {
        let (e0, e1, e2, e3, e4, e5, e6, e7, e8, e9, e10) = self.0;
        e0.run_with(simulator);
        e1.run_with(simulator);
        e2.run_with(simulator);
        e3.run_with(simulator);
        e4.run_with(simulator);
        e5.run_with(simulator);
        e6.run_with(simulator);
        e7.run_with(simulator);
        e8.run_with(simulator);
        e9.run_with(simulator);
        e10.run_with(simulator);
    }
}

impl<I0, I1, I2, I3, I4, I5, I6, I7, I8, I9, I10, I11, Smltr: View> Simulatable<Smltr> for Sequence<(I0, I1, I2, I3, I4, I5, I6, I7, I8, I9, I10, I11)> where
    I0: Simulatable<Smltr>,
    I1: Simulatable<Smltr>,
    I2: Simulatable<Smltr>,
    I3: Simulatable<Smltr>,
    I4: Simulatable<Smltr>,
    I5: Simulatable<Smltr>,
    I6: Simulatable<Smltr>,
    I7: Simulatable<Smltr>,
    I8: Simulatable<Smltr>,
    I9: Simulatable<Smltr>,
    I10: Simulatable<Smltr>,
    I11: Simulatable<Smltr>,
 {
    open spec fn played(self, before: Smltr::V) -> Smltr::V {
        let s0 = (self.0).0.played(before);
        let s1 = (self.0).1.played(s0);
        let s2 = (self.0).2.played(s1);
        let s3 = (self.0).3.played(s2);
        let s4 = (self.0).4.played(s3);
        let s5 = (self.0).5.played(s4);
        let s6 = (self.0).6.played(s5);
        let s7 = (self.0).7.played(s6);
        let s8 = (self.0).8.played(s7);
        let s9 = (self.0).9.played(s8);
        let s10 = (self.0).10.played(s9);
        let s11 = (self.0).11.played(s10);
        s11
    }

    fn run_with(self, simulator: &mut Smltr) {
        let (e0, e1, e2, e3, e4, e5, e6, e7, e8, e9, e10, e11) = self.0;
        e0.run_with(simulator);
        e1.run_with(simulator);
        e2.run_with(simulator);
        e3.run_with(simulator);
        e4.run_with(simulator);
        e5.run_with(simulator);
        e6.run_with(simulator);
        e7.run_with(simulator);
        e8.run_with(simulator);
        e9.run_with(simulator);
        e10.run_with(simulator);
        e11.run_with(simulator);
    }
}

impl<I0, I1, I2, I3, I4, I5, I6, I7, I8, I9, I10, I11, I12, Smltr: View> Simulatable<Smltr> for Sequence<(I0, I1, I2, I3, I4, I5, I6, I7, I8, I9, I10, I11, I12)> where
    I0: Simulatable<Smltr>,
    I1: Simulatable<Smltr>,
    I2: Simulatable<Smltr>,
    I3: Simulatable<Smltr>,
    I4: Simulatable<Smltr>,
    I5: Simulatable<Smltr>,
    I6: Simulatable<Smltr>,
    I7: Simulatable<Smltr>,
    I8: Simulatable<Smltr>,
    I9: Simulatable<Smltr>,
    I10: Simulatable<Smltr>,
    I11: Simulatable<Smltr>,
    I12: Simulatable<Smltr>,
 {
    open spec fn played(self, before: Smltr::V) -> Smltr::V {
        let s0 = (self.0).0.played(before);
        let s1 = (self.0).1.played(s0);
        let s2 = (self.0).2.played(s1);
        let s3 = (self.0).3.played(s2);
        let s4 = (self.0).4.played(s3);
        let s5 = (self.0).5.played(s4);
        let s6 = (self.0).6.played(s5);
        let s7 = (self.0).7.played(s6);
        let s8 = (self.0).8.played(s7);
        let s9 = (self.0).9.played(s8);
        let s10 = (self.0).10.played(s9);
        let s11 = (self.0).11.played(s10);
        let s12 = (self.0).12.played(s11);
        s12
    }

    fn run_with(self, simulator: &mut Smltr) {
        let (e0, e1, e2, e3, e4, e5, e6, e7, e8, e9, e10, e11, e12) = self.0;
        e0.run_with(simulator);
        e1.run_with(simulator);
        e2.run_with(simulator);
        e3.run_with(simulator);
        e4.run_with(simulator);
        e5.run_with(simulator);
        e6.run_with(simulator);
        e7.run_with(simulator);
        e8.run_with(simulator);
        e9.run_with(simulator);
        e10.run_with(simulator);
        e11.run_with(simulator);
        e12.run_with(simulator);
    }
}

impl<I0, I1, I2, I3, I4, I5, I6, I7, I8, I9, I10, I11, I12, I13, Smltr: View> Simulatable<Smltr> for Sequence<(I0, I1, I2, I3, I4, I5, I6, I7, I8, I9, I10, I11, I12, I13)> where
    I0: Simulatable<Smltr>,
    I1: Simulatable<Smltr>,
    I2: Simulatable<Smltr>,
    I3: Simulatable<Smltr>,
    I4: Simulatable<Smltr>,
    I5: Simulatable<Smltr>,
    I6: Simulatable<Smltr>,
    I7: Simulatable<Smltr>,
    I8: Simulatable<Smltr>,
    I9: Simulatable<Smltr>,
    I10: Simulatable<Smltr>,
    I11: Simulatable<Smltr>,
    I12: Simulatable<Smltr>,
    I13: Simulatable<Smltr>,
 {
    open spec fn played(self, before: Smltr::V) -> Smltr::V {
        let s0 = (self.0).0.played(before);
        let s1 = (self.0).1.played(s0);
        let s2 = (self.0).2.played(s1);
        let s3 = (self.0).3.played(s2);
        let s4 = (self.0).4.played(s3);
        let s5 = (self.0).5.played(s4);
        let s6 = (self.0).6.played(s5);
        let s7 = (self.0).7.played(s6);
        let s8 = (self.0).8.played(s7);
        let s9 = (self.0).9.played(s8);
        let s10 = (self.0).10.played(s9);
        let s11 = (self.0).11.played(s10);
        let s12 = (self.0).12.played(s11);
        let s13 = (self.0).13.played(s12);
        s13
    }

    fn run_with(self, simulator: &mut Smltr) {
        let (e0, e1, e2, e3, e4, e5, e6, e7, e8, e9, e10, e11, e12, e13) = self.0;
        e0.run_with(simulator);
        e1.run_with(simulator);
        e2.run_with(simulator);
        e3.run_with(simulator);
        e4.run_with(simulator);
        e5.run_with(simulator);
        e6.run_with(simulator);
        e7.run_with(simulator);
        e8.run_with(simulator);
        e9.run_with(simulator);
        e10.run_with(simulator);
        e11.run_with(simulator);
        e12.run_with(simulator);
        e13.run_with(simulator);
    }
}

impl<I0, I1, I2, I3, I4, I5, I6, I7, I8, I9, I10, I11, I12, I13, I14, Smltr: View> Simulatable<Smltr> for Sequence<(I0, I1, I2, I3, I4, I5, I6, I7, I8, I9, I10, I11, I12, I13, I14)> where
    I0: Simulatable<Smltr>,
    I1: Simulatable<Smltr>,
    I2: Simulatable<Smltr>,
    I3: Simulatable<Smltr>,
    I4: Simulatable<Smltr>,
    I5: Simulatable<Smltr>,
    I6: Simulatable<Smltr>,
    I7: Simulatable<Smltr>,
    I8: Simulatable<Smltr>,
    I9: Simulatable<Smltr>,
    I10: Simulatable<Smltr>,
    I11: Simulatable<Smltr>,
    I12: Simulatable<Smltr>,
    I13: Simulatable<Smltr>,
    I14: Simulatable<Smltr>,
 {
    open spec fn played(self, before: Smltr::V) -> Smltr::V {
        let s0 = (self.0).0.played(before);
        let s1 = (self.0).1.played(s0);
        let s2 = (self.0).2.played(s1);
        let s3 = (self.0).3.played(s2);
        let s4 = (self.0).4.played(s3);
        let s5 = (self.0).5.played(s4);
        let s6 = (self.0).6.played(s5);
        let s7 = (self.0).7.played(s6);
        let s8 = (self.0).8.played(s7);
        let s9 = (self.0).9.played(s8);
        let s10 = (self.0).10.played(s9);
        let s11 = (self.0).11.played(s10);
        let s12 = (self.0).12.played(s11);
        let s13 = (self.0).13.played(s12);
        let s14 = (self.0).14.played(s13);
        s14
    }

    fn run_with(self, simulator: &mut Smltr) {
        let (e0, e1, e2, e3, e4, e5, e6, e7, e8, e9, e10, e11, e12, e13, e14) = self.0;
        e0.run_with(simulator);
        e1.run_with(simulator);
        e2.run_with(simulator);
        e3.run_with(simulator);
        e4.run_with(simulator);
        e5.run_with(simulator);
        e6.run_with(simulator);
        e7.run_with(simulator);
        e8.run_with(simulator);
        e9.run_with(simulator);
        e10.run_with(simulator);
        e11.run_with(simulator);
        e12.run_with(simulator);
        e13.run_with(simulator);
        e14.run_with(simulator);
    }
}

impl<I0, I1, I2, I3, I4, I5, I6, I7, I8, I9, I10, I11, I12, I13, I14, I15, Smltr: View> Simulatable<Smltr> for Sequence<(I0, I1, I2, I3, I4, I5, I6, I7, I8, I9, I10, I11, I12, I13, I14, I15)> where
    I0: Simulatable<Smltr>,
    I1: Simulatable<Smltr>,
    I2: Simulatable<Smltr>,
    I3: Simulatable<Smltr>,
    I4: Simulatable<Smltr>,
    I5: Simulatable<Smltr>,
    I6: Simulatable<Smltr>,
    I7: Simulatable<Smltr>,
    I8: Simulatable<Smltr>,
    I9: Simulatable<Smltr>,
    I10: Simulatable<Smltr>,
    I11: Simulatable<Smltr>,
    I12: Simulatable<Smltr>,
    I13: Simulatable<Smltr>,
    I14: Simulatable<Smltr>,
    I15: Simulatable<Smltr>,
 {
    open spec fn played(self, before: Smltr::V) -> Smltr::V {
        let s0 = (self.0).0.played(before);
        let s1 = (self.0).1.played(s0);
        let s2 = (self.0).2.played(s1);
        let s3 = (self.0).3.played(s2);
        let s4 = (self.0).4.played(s3);
        let s5 = (self.0).5.played(s4);
        let s6 = (self.0).6.played(s5);
        let s7 = (self.0).7.played(s6);
        let s8 = (self.0).8.played(s7);
        let s9 = (self.0).9.played(s8);
        let s10 = (self.0).10.played(s9);
        let s11 = (self.0).11.played(s10);
        let s12 = (self.0).12.played(s11);
        let s13 = (self.0).13.played(s12);
        let s14 = (self.0).14.played(s13);
        let s15 = (self.0).15.played(s14);
        s15
    }

    fn run_with(self, simulator: &mut Smltr) {
        let (e0, e1, e2, e3, e4, e5, e6, e7, e8, e9, e10, e11, e12, e13, e14, e15) = self.0;
        e0.run_with(simulator);
        e1.run_with(simulator);
        e2.run_with(simulator);
        e3.run_with(simulator);
        e4.run_with(simulator);
        e5.run_with(simulator);
        e6.run_with(simulator);
        e7.run_with(simulator);
        e8.run_with(simulator);
        e9.run_with(simulator);
        e10.run_with(simulator);
        e11.run_with(simulator);
        e12.run_with(simulator);
        e13.run_with(simulator);
        e14.run_with(simulator);
        e15.run_with(simulator);
    }
}

impl<I0, I1, I2, I3, I4, I5, I6, I7, I8, I9, I10, I11, I12, I13, I14, I15, I16, Smltr: View> Simulatable<Smltr> for Sequence<(I0, I1, I2, I3, I4, I5, I6, I7, I8, I9, I10, I11, I12, I13, I14, I15, I16)> where
    I0: Simulatable<Smltr>,
    I1: Simulatable<Smltr>,
    I2: Simulatable<Smltr>,
    I3: Simulatable<Smltr>,
    I4: Simulatable<Smltr>,
    I5: Simulatable<Smltr>,
    I6: Simulatable<Smltr>,
    I7: Simulatable<Smltr>,
    I8: Simulatable<Smltr>,
    I9: Simulatable<Smltr>,
    I10: Simulatable<Smltr>,
    I11: Simulatable<Smltr>,
    I12: Simulatable<Smltr>,
    I13: Simulatable<Smltr>,
    I14: Simulatable<Smltr>,
    I15: Simulatable<Smltr>,
    I16: Simulatable<Smltr>,
 {
    open spec fn played(self, before: Smltr::V) -> Smltr::V {
        let s0 = (self.0).0.played(before);
        let s1 = (self.0).1.played(s0);
        let s2 = (self.0).2.played(s1);
        let s3 = (self.0).3.played(s2);
        let s4 = (self.0).4.played(s3);
        let s5 = (self.0).5.played(s4);
        let s6 = (self.0).6.played(s5);
        let s7 = (self.0).7.played(s6);
        let s8 = (self.0).8.played(s7);
        let s9 = (self.0).9.played(s8);
        let s10 = (self.0).10.played(s9);
        let s11 = (self.0).11.played(s10);
        let s12 = (self.0).12.played(s11);
        let s13 = (self.0).13.played(s12);
        let s14 = (self.0).14.played(s13);
        let s15 = (self.0).15.played(s14);
        let s16 = (self.0).16.played(s15);
        s16
    }

    fn run_with(self, simulator: &mut Smltr) {
        let (e0, e1, e2, e3, e4, e5, e6, e7, e8, e9, e10, e11, e12, e13, e14, e15, e16) = self.0;
        e0.run_with(simulator);
        e1.run_with(simulator);
        e2.run_with(simulator);
        e3.run_with(simulator);
        e4.run_with(simulator);
        e5.run_with(simulator);
        e6.run_with(simulator);
        e7.run_with(simulator);
        e8.run_with(simulator);
        e9.run_with(simulator);
        e10.run_with(simulator);
        e11.run_with(simulator);
        e12.run_with(simulator);
        e13.run_with(simulator);
        e14.run_with(simulator);
        e15.run_with(simulator);
        e16.run_with(simulator);
    }
}

impl<I0, I1, I2, I3, I4, I5, I6, I7, I8, I9, I10, I11, I12, I13, I14, I15, I16, I17, Smltr: View> Simulatable<Smltr> for Sequence<(I0, I1, I2, I3, I4, I5, I6, I7, I8, I9, I10, I11, I12, I13, I14, I15, I16, I17)> where
    I0: Simulatable<Smltr>,
    I1: Simulatable<Smltr>,
    I2: Simulatable<Smltr>,
    I3: Simulatable<Smltr>,
    I4: Simulatable<Smltr>,
    I5: Simulatable<Smltr>,
    I6: Simulatable<Smltr>,
    I7: Simulatable<Smltr>,
    I8: Simulatable<Smltr>,
    I9: Simulatable<Smltr>,
    I10: Simulatable<Smltr>,
    I11: Simulatable<Smltr>,
    I12: Simulatable<Smltr>,
    I13: Simulatable<Smltr>,
    I14: Simulatable<Smltr>,
    I15: Simulatable<Smltr>,
    I16: Simulatable<Smltr>,
    I17: Simulatable<Smltr>,
 {
    open spec fn played(self, before: Smltr::V) -> Smltr::V {
        let s0 = (self.0).0.played(before);
        let s1 = (self.0).1.played(s0);
        let s2 = (self.0).2.played(s1);
        let s3 = (self.0).3.played(s2);
        let s4 = (self.0).4.played(s3);
        let s5 = (self.0).5.played(s4);
        let s6 = (self.0).6.played(s5);
        let s7 = (self.0).7.played(s6);
        let s8 = (self.0).8.played(s7);
        let s9 = (self.0).9.played(s8);
        let s10 = (self.0).10.played(s9);
        let s11 = (self.0).11.played(s10);
        let s12 = (self.0).12.played(s11);
        let s13 = (self.0).13.played(s12);
        let s14 = (self.0).14.played(s13);
        let s15 = (self.0).15.played(s14);
        let s16 = (self.0).16.played(s15);
        let s17 = (self.0).17.played(s16);
        s17
    }

    fn run_with(self, simulator: &mut Smltr) {
        let (e0, e1, e2, e3, e4, e5, e6, e7, e8, e9, e10, e11, e12, e13, e14, e15, e16, e17) = self.0;
        e0.run_with(simulator);
        e1.run_with(simulator);
        e2.run_with(simulator);
        e3.run_with(simulator);
        e4.run_with(simulator);
        e5.run_with(simulator);
        e6.run_with(simulator);
        e7.run_with(simulator);
        e8.run_with(simulator);
        e9.run_with(simulator);
        e10.run_with(simulator);
        e11.run_with(simulator);
        e12.run_with(simulator);
        e13.run_with(simulator);
        e14.run_with(simulator);
        e15.run_with(simulator);
        e16.run_with(simulator);
        e17.run_with(simulator);
    }
}

impl<I0, I1, I2, I3, I4, I5, I6, I7, I8, I9, I10, I11, I12, I13, I14, I15, I16, I17, I18, Smltr: View> Simulatable<Smltr> for Sequence<(I0, I1, I2, I3, I4, I5, I6, I7, I8, I9, I10, I11, I12, I13, I14, I15, I16, I17, I18)> where
    I0: Simulatable<Smltr>,
    I1: Simulatable<Smltr>,
    I2: Simulatable<Smltr>,
    I3: Simulatable<Smltr>,
    I4: Simulatable<Smltr>,
    I5: Simulatable<Smltr>,
    I6: Simulatable<Smltr>,
    I7: Simulatable<Smltr>,
    I8: Simulatable<Smltr>,
    I9: Simulatable<Smltr>,
    I10: Simulatable<Smltr>,
    I11: Simulatable<Smltr>,
    I12: Simulatable<Smltr>,
    I13: Simulatable<Smltr>,
    I14: Simulatable<Smltr>,
    I15: Simulatable<Smltr>,
    I16: Simulatable<Smltr>,
    I17: Simulatable<Smltr>,
    I18: Simulatable<Smltr>,
 {
    open spec fn played(self, before: Smltr::V) -> Smltr::V {
        let s0 = (self.0).0.played(before);
        let s1 = (self.0).1.played(s0);
        let s2 = (self.0).2.played(s1);
        let s3 = (self.0).3.played(s2);
        let s4 = (self.0).4.played(s3);
        let s5 = (self.0).5.played(s4);
        let s6 = (self.0).6.played(s5);
        let s7 = (self.0).7.played(s6);
        let s8 = (self.0).8.played(s7);
        let s9 = (self.0).9.played(s8);
        let s10 = (self.0).10.played(s9);
        let s11 = (self.0).11.played(s10);
        let s12 = (self.0).12.played(s11);
        let s13 = (self.0).13.played(s12);
        let s14 = (self.0).14.played(s13);
        let s15 = (self.0).15.played(s14);
        let s16 = (self.0).16.played(s15);
        let s17 = (self.0).17.played(s16);
        let s18 = (self.0).18.played(s17);
        s18
    }

    fn run_with(self, simulator: &mut Smltr) {
        let (e0, e1, e2, e3, e4, e5, e6, e7, e8, e9, e10, e11, e12, e13, e14, e15, e16, e17, e18) = self.0;
        e0.run_with(simulator);
        e1.run_with(simulator);
        e2.run_with(simulator);
        e3.run_with(simulator);
        e4.run_with(simulator);
        e5.run_with(simulator);
        e6.run_with(simulator);
        e7.run_with(simulator);
        e8.run_with(simulator);
        e9.run_with(simulator);
        e10.run_with(simulator);
        e11.run_with(simulator);
        e12.run_with(simulator);
        e13.run_with(simulator);
        e14.run_with(simulator);
        e15.run_with(simulator);
        e16.run_with(simulator);
        e17.run_with(simulator);
        e18.run_with(simulator);
    }
}

impl<I0, I1, I2, I3, I4, I5, I6, I7, I8, I9, I10, I11, I12, I13, I14, I15, I16, I17, I18, I19, Smltr: View> Simulatable<Smltr> for Sequence<(I0, I1, I2, I3, I4, I5, I6, I7, I8, I9, I10, I11, I12, I13, I14, I15, I16, I17, I18, I19)> where
    I0: Simulatable<Smltr>,
    I1: Simulatable<Smltr>,
    I2: Simulatable<Smltr>,
    I3: Simulatable<Smltr>,
    I4: Simulatable<Smltr>,
    I5: Simulatable<Smltr>,
    I6: Simulatable<Smltr>,
    I7: Simulatable<Smltr>,
    I8: Simulatable<Smltr>,
    I9: Simulatable<Smltr>,
    I10: Simulatable<Smltr>,
    I11: Simulatable<Smltr>,
    I12: Simulatable<Smltr>,
    I13: Simulatable<Smltr>,
    I14: Simulatable<Smltr>,
    I15: Simulatable<Smltr>,
    I16: Simulatable<Smltr>,
    I17: Simulatable<Smltr>,
    I18: Simulatable<Smltr>,
    I19: Simulatable<Smltr>,
 {
    open spec fn played(self, before: Smltr::V) -> Smltr::V {
        let s0 = (self.0).0.played(before);
        let s1 = (self.0).1.played(s0);
        let s2 = (self.0).2.played(s1);
        let s3 = (self.0).3.played(s2);
        let s4 = (self.0).4.played(s3);
        let s5 = (self.0).5.played(s4);
        let s6 = (self.0).6.played(s5);
        let s7 = (self.0).7.played(s6);
        let s8 = (self.0).8.played(s7);
        let s9 = (self.0).9.played(s8);
        let s10 = (self.0).10.played(s9);
        let s11 = (self.0).11.played(s10);
        let s12 = (self.0).12.played(s11);
        let s13 = (self.0).13.played(s12);
        let s14 = (self.0).14.played(s13);
        let s15 = (self.0).15.played(s14);
        let s16 = (self.0).16.played(s15);
        let s17 = (self.0).17.played(s16);
        let s18 = (self.0).18.played(s17);
        let s19 = (self.0).19.played(s18);
        s19
    }

    fn run_with(self, simulator: &mut Smltr) {
        let (e0, e1, e2, e3, e4, e5, e6, e7, e8, e9, e10, e11, e12, e13, e14, e15, e16, e17, e18, e19) = self.0;
        e0.run_with(simulator);
        e1.run_with(simulator);
        e2.run_with(simulator);
        e3.run_with(simulator);
        e4.run_with(simulator);
        e5.run_with(simulator);
        e6.run_with(simulator);
        e7.run_with(simulator);
        e8.run_with(simulator);
        e9.run_with(simulator);
        e10.run_with(simulator);
        e11.run_with(simulator);
        e12.run_with(simulator);
        e13.run_with(simulator);
        e14.run_with(simulator);
        e15.run_with(simulator);
        e16.run_with(simulator);
        e17.run_with(simulator);
        e18.run_with(simulator);
        e19.run_with(simulator);
    }
}

impl<I0, I1, I2, I3, I4, I5, I6, I7, I8, I9, I10, I11, I12, I13, I14, I15, I16, I17, I18, I19, I20, Smltr: View> Simulatable<Smltr> for Sequence<(I0, I1, I2, I3, I4, I5, I6, I7, I8, I9, I10, I11, I12, I13, I14, I15, I16, I17, I18, I19, I20)> where
    I0: Simulatable<Smltr>,
    I1: Simulatable<Smltr>,
    I2: Simulatable<Smltr>,
    I3: Simulatable<Smltr>,
    I4: Simulatable<Smltr>,
    I5: Simulatable<Smltr>,
    I6: Simulatable<Smltr>,
    I7: Simulatable<Smltr>,
    I8: Simulatable<Smltr>,
    I9: Simulatable<Smltr>,
    I10: Simulatable<Smltr>,
    I11: Simulatable<Smltr>,
    I12: Simulatable<Smltr>,
    I13: Simulatable<Smltr>,
    I14: Simulatable<Smltr>,
    I15: Simulatable<Smltr>,
    I16: Simulatable<Smltr>,
    I17: Simulatable<Smltr>,
    I18: Simulatable<Smltr>,
    I19: Simulatable<Smltr>,
    I20: Simulatable<Smltr>,
 {
    open spec fn played(self, before: Smltr::V) -> Smltr::V {
        let s0 = (self.0).0.played(before);
        let s1 = (self.0).1.played(s0);
        let s2 = (self.0).2.played(s1);
        let s3 = (self.0).3.played(s2);
        let s4 = (self.0).4.played(s3);
        let s5 = (self.0).5.played(s4);
        let s6 = (self.0).6.played(s5);
        let s7 = (self.0).7.played(s6);
        let s8 = (self.0).8.played(s7);
        let s9 = (self.0).9.played(s8);
        let s10 = (self.0).10.played(s9);
        let s11 = (self.0).11.played(s10);
        let s12 = (self.0).12.played(s11);
        let s13 = (self.0).13.played(s12);
        let s14 = (self.0).14.played(s13);
        let s15 = (self.0).15.played(s14);
        let s16 = (self.0).16.played(s15);
        let s17 = (self.0).17.played(s16);
        let s18 = (self.0).18.played(s17);
        let s19 = (self.0).19.played(s18);
        let s20 = (self.0).20.played(s19);
        s20
    }

    fn run_with(self, simulator: &mut Smltr) {
        let (e0, e1, e2, e3, e4, e5, e6, e7, e8, e9, e10, e11, e12, e13, e14, e15, e16, e17, e18, e19, e20) = self.0;
        e0.run_with(simulator);
        e1.run_with(simulator);
        e2.run_with(simulator);
        e3.run_with(simulator);
        e4.run_with(simulator);
        e5.run_with(simulator);
        e6.run_with(simulator);
        e7.run_with(simulator);
        e8.run_with(simulator);
        e9.run_with(simulator);
        e10.run_with(simulator);
        e11.run_with(simulator);
        e12.run_with(simulator);
        e13.run_with(simulator);
        e14.run_with(simulator);
        e15.run_with(simulator);
        e16.run_with(simulator);
        e17.run_with(simulator);
        e18.run_with(simulator);
        e19.run_with(simulator);
        e20.run_with(simulator);
    }
}

impl<I0, I1, I2, I3, I4, I5, I6, I7, I8, I9, I10, I11, I12, I13, I14, I15, I16, I17, I18, I19, I20, I21, Smltr: View> Simulatable<Smltr> for Sequence<(I0, I1, I2, I3, I4, I5, I6, I7, I8, I9, I10, I11, I12, I13, I14, I15, I16, I17, I18, I19, I20, I21)> where
    I0: Simulatable<Smltr>,
    I1: Simulatable<Smltr>,
    I2: Simulatable<Smltr>,
    I3: Simulatable<Smltr>,
    I4: Simulatable<Smltr>,
    I5: Simulatable<Smltr>,
    I6: Simulatable<Smltr>,
    I7: Simulatable<Smltr>,
    I8: Simulatable<Smltr>,
    I9: Simulatable<Smltr>,
    I10: Simulatable<Smltr>,
    I11: Simulatable<Smltr>,
    I12: Simulatable<Smltr>,
    I13: Simulatable<Smltr>,
    I14: Simulatable<Smltr>,
    I15: Simulatable<Smltr>,
    I16: Simulatable<Smltr>,
    I17: Simulatable<Smltr>,
    I18: Simulatable<Smltr>,
    I19: Simulatable<Smltr>,
    I20: Simulatable<Smltr>,
    I21: Simulatable<Smltr>,
 {
    open spec fn played(self, before: Smltr::V) -> Smltr::V {
        let s0 = (self.0).0.played(before);
        let s1 = (self.0).1.played(s0);
        let s2 = (self.0).2.played(s1);
        let s3 = (self.0).3.played(s2);
        let s4 = (self.0).4.played(s3);
        let s5 = (self.0).5.played(s4);
        let s6 = (self.0).6.played(s5);
        let s7 = (self.0).7.played(s6);
        let s8 = (self.0).8.played(s7);
        let s9 = (self.0).9.played(s8);
        let s10 = (self.0).10.played(s9);
        let s11 = (self.0).11.played(s10);
        let s12 = (self.0).12.played(s11);
        let s13 = (self.0).13.played(s12);
        let s14 = (self.0).14.played(s13);
        let s15 = (self.0).15.played(s14);
        let s16 = (self.0).16.played(s15);
        let s17 = (self.0).17.played(s16);
        let s18 = (self.0).18.played(s17);
        let s19 = (self.0).19.played(s18);
        let s20 = (self.0).20.played(s19);
        let s21 = (self.0).21.played(s20);
        s21
    }

    fn run_with(self, simulator: &mut Smltr) {
        let (e0, e1, e2, e3, e4, e5, e6, e7, e8, e9, e10, e11, e12, e13, e14, e15, e16, e17, e18, e19, e20, e21) = self.0;
        e0.run_with(simulator);
        e1.run_with(simulator);
        e2.run_with(simulator);
        e3.run_with(simulator);
        e4.run_with(simulator);
        e5.run_with(simulator);
        e6.run_with(simulator);
        e7.run_with(simulator);
        e8.run_with(simulator);
        e9.run_with(simulator);
        e10.run_with(simulator);
        e11.run_with(simulator);
        e12.run_with(simulator);
        e13.run_with(simulator);
        e14.run_with(simulator);
        e15.run_with(simulator);
        e16.run_with(simulator);
        e17.run_with(simulator);
        e18.run_with(simulator);
        e19.run_with(simulator);
        e20.run_with(simulator);
        e21.run_with(simulator);
    }
}

impl<I0, I1, I2, I3, I4, I5, I6, I7, I8, I9, I10, I11, I12, I13, I14, I15, I16, I17, I18, I19, I20, I21, I22, Smltr: View> Simulatable<Smltr> for Sequence<(I0, I1, I2, I3, I4, I5, I6, I7, I8, I9, I10, I11, I12, I13, I14, I15, I16, I17, I18, I19, I20, I21, I22)> where
    I0: Simulatable<Smltr>,
    I1: Simulatable<Smltr>,
    I2: Simulatable<Smltr>,
    I3: Simulatable<Smltr>,
    I4: Simulatable<Smltr>,
    I5: Simulatable<Smltr>,
    I6: Simulatable<Smltr>,
    I7: Simulatable<Smltr>,
    I8: Simulatable<Smltr>,
    I9: Simulatable<Smltr>,
    I10: Simulatable<Smltr>,
    I11: Simulatable<Smltr>,
    I12: Simulatable<Smltr>,
    I13: Simulatable<Smltr>,
    I14: Simulatable<Smltr>,
    I15: Simulatable<Smltr>,
    I16: Simulatable<Smltr>,
    I17: Simulatable<Smltr>,
    I18: Simulatable<Smltr>,
    I19: Simulatable<Smltr>,
    I20: Simulatable<Smltr>,
    I21: Simulatable<Smltr>,
    I22: Simulatable<Smltr>,
 {
    open spec fn played(self, before: Smltr::V) -> Smltr::V {
        let s0 = (self.0).0.played(before);
        let s1 = (self.0).1.played(s0);
        let s2 = (self.0).2.played(s1);
        let s3 = (self.0).3.played(s2);
        let s4 = (self.0).4.played(s3);
        let s5 = (self.0).5.played(s4);
        let s6 = (self.0).6.played(s5);
        let s7 = (self.0).7.played(s6);
        let s8 = (self.0).8.played(s7);
        let s9 = (self.0).9.played(s8);
        let s10 = (self.0).10.played(s9);
        let s11 = (self.0).11.played(s10);
        let s12 = (self.0).12.played(s11);
        let s13 = (self.0).13.played(s12);
        let s14 = (self.0).14.played(s13);
        let s15 = (self.0).15.played(s14);
        let s16 = (self.0).16.played(s15);
        let s17 = (self.0).17.played(s16);
        let s18 = (self.0).18.played(s17);
        let s19 = (self.0).19.played(s18);
        let s20 = (self.0).20.played(s19);
        let s21 = (self.0).21.played(s20);
        let s22 = (self.0).22.played(s21);
        s22
    }

    fn run_with(self, simulator: &mut Smltr) {
        let (e0, e1, e2, e3, e4, e5, e6, e7, e8, e9, e10, e11, e12, e13, e14, e15, e16, e17, e18, e19, e20, e21, e22) = self.0;
        e0.run_with(simulator);
        e1.run_with(simulator);
        e2.run_with(simulator);
        e3.run_with(simulator);
        e4.run_with(simulator);
        e5.run_with(simulator);
        e6.run_with(simulator);
        e7.run_with(simulator);
        e8.run_with(simulator);
        e9.run_with(simulator);
        e10.run_with(simulator);
        e11.run_with(simulator);
        e12.run_with(simulator);
        e13.run_with(simulator);
        e14.run_with(simulator);
        e15.run_with(simulator);
        e16.run_with(simulator);
        e17.run_with(simulator);
        e18.run_with(simulator);
        e19.run_with(simulator);
        e20.run_with(simulator);
        e21.run_with(simulator);
        e22.run_with(simulator);
    }
}

impl<I0, I1, I2, I3, I4, I5, I6, I7, I8, I9, I10, I11, I12, I13, I14, I15, I16, I17, I18, I19, I20, I21, I22, I23, Smltr: View> Simulatable<Smltr> for Sequence<(I0, I1, I2, I3, I4, I5, I6, I7, I8, I9, I10, I11, I12, I13, I14, I15, I16, I17, I18, I19, I20, I21, I22, I23)> where
    I0: Simulatable<Smltr>,
    I1: Simulatable<Smltr>,
    I2: Simulatable<Smltr>,
    I3: Simulatable<Smltr>,
    I4: Simulatable<Smltr>,
    I5: Simulatable<Smltr>,
    I6: Simulatable<Smltr>,
    I7: Simulatable<Smltr>,
    I8: Simulatable<Smltr>,
    I9: Simulatable<Smltr>,
    I10: Simulatable<Smltr>,
    I11: Simulatable<Smltr>,
    I12: Simulatable<Smltr>,
    I13: Simulatable<Smltr>,
    I14: Simulatable<Smltr>,
    I15: Simulatable<Smltr>,
    I16: Simulatable<Smltr>,
    I17: Simulatable<Smltr>,
    I18: Simulatable<Smltr>,
    I19: Simulatable<Smltr>,
    I20: Simulatable<Smltr>,
    I21: Simulatable<Smltr>,
    I22: Simulatable<Smltr>,
    I23: Simulatable<Smltr>,
 {
    open spec fn played(self, before: Smltr::V) -> Smltr::V {
        let s0 = (self.0).0.played(before);
        let s1 = (self.0).1.played(s0);
        let s2 = (self.0).2.played(s1);
        let s3 = (self.0).3.played(s2);
        let s4 = (self.0).4.played(s3);
        let s5 = (self.0).5.played(s4);
        let s6 = (self.0).6.played(s5);
        let s7 = (self.0).7.played(s6);
        let s8 = (self.0).8.played(s7);
        let s9 = (self.0).9.played(s8);
        let s10 = (self.0).10.played(s9);
        let s11 = (self.0).11.played(s10);
        let s12 = (self.0).12.played(s11);
        let s13 = (self.0).13.played(s12);
        let s14 = (self.0).14.played(s13);
        let s15 = (self.0).15.played(s14);
        let s16 = (self.0).16.played(s15);
        let s17 = (self.0).17.played(s16);
        let s18 = (self.0).18.played(s17);
        let s19 = (self.0).19.played(s18);
        let s20 = (self.0).20.played(s19);
        let s21 = (self.0).21.played(s20);
        let s22 = (self.0).22.played(s21);
        let s23 = (self.0).23.played(s22);
        s23
    }

    fn run_with(self, simulator: &mut Smltr) {
        let (e0, e1, e2, e3, e4, e5, e6, e7, e8, e9, e10, e11, e12, e13, e14, e15, e16, e17, e18, e19, e20, e21, e22, e23) = self.0;
        e0.run_with(simulator);
        e1.run_with(simulator);
        e2.run_with(simulator);
        e3.run_with(simulator);
        e4.run_with(simulator);
        e5.run_with(simulator);
        e6.run_with(simulator);
        e7.run_with(simulator);
        e8.run_with(simulator);
        e9.run_with(simulator);
        e10.run_with(simulator);
        e11.run_with(simulator);
        e12.run_with(simulator);
        e13.run_with(simulator);
        e14.run_with(simulator);
        e15.run_with(simulator);
        e16.run_with(simulator);
        e17.run_with(simulator);
        e18.run_with(simulator);
        e19.run_with(simulator);
        e20.run_with(simulator);
        e21.run_with(simulator);
        e22.run_with(simulator);
        e23.run_with(simulator);
    }
}

impl<I0, I1, I2, I3, I4, I5, I6, I7, I8, I9, I10, I11, I12, I13, I14, I15, I16, I17, I18, I19, I20, I21, I22, I23, I24, Smltr: View> Simulatable<Smltr> for Sequence<(I0, I1, I2, I3, I4, I5, I6, I7, I8, I9, I10, I11, I12, I13, I14, I15, I16, I17, I18, I19, I20, I21, I22, I23, I24)> where
    I0: Simulatable<Smltr>,
    I1: Simulatable<Smltr>,
    I2: Simulatable<Smltr>,
    I3: Simulatable<Smltr>,
    I4: Simulatable<Smltr>,
    I5: Simulatable<Smltr>,
    I6: Simulatable<Smltr>,
    I7: Simulatable<Smltr>,
    I8: Simulatable<Smltr>,
    I9: Simulatable<Smltr>,
    I10: Simulatable<Smltr>,
    I11: Simulatable<Smltr>,
    I12: Simulatable<Smltr>,
    I13: Simulatable<Smltr>,
    I14: Simulatable<Smltr>,
    I15: Simulatable<Smltr>,
    I16: Simulatable<Smltr>,
    I17: Simulatable<Smltr>,
    I18: Simulatable<Smltr>,
    I19: Simulatable<Smltr>,
    I20: Simulatable<Smltr>,
    I21: Simulatable<Smltr>,
    I22: Simulatable<Smltr>,
    I23: Simulatable<Smltr>,
    I24: Simulatable<Smltr>,
 {
    open spec fn played(self, before: Smltr::V) -> Smltr::V {
        let s0 = (self.0).0.played(before);
        let s1 = (self.0).1.played(s0);
        let s2 = (self.0).2.played(s1);
        let s3 = (self.0).3.played(s2);
        let s4 = (self.0).4.played(s3);
        let s5 = (self.0).5.played(s4);
        let s6 = (self.0).6.played(s5);
        let s7 = (self.0).7.played(s6);
        let s8 = (self.0).8.played(s7);
        let s9 = (self.0).9.played(s8);
        let s10 = (self.0).10.played(s9);
        let s11 = (self.0).11.played(s10);
        let s12 = (self.0).12.played(s11);
        let s13 = (self.0).13.played(s12);
        let s14 = (self.0).14.played(s13);
        let s15 = (self.0).15.played(s14);
        let s16 = (self.0).16.played(s15);
        let s17 = (self.0).17.played(s16);
        let s18 = (self.0).18.played(s17);
        let s19 = (self.0).19.played(s18);
        let s20 = (self.0).20.played(s19);
        let s21 = (self.0).21.played(s20);
        let s22 = (self.0).22.played(s21);
        let s23 = (self.0).23.played(s22);
        let s24 = (self.0).24.played(s23);
        s24
    }

    fn run_with(self, simulator: &mut Smltr) {
        let (e0, e1, e2, e3, e4, e5, e6, e7, e8, e9, e10, e11, e12, e13, e14, e15, e16, e17, e18, e19, e20, e21, e22, e23, e24) = self.0;
        e0.run_with(simulator);
        e1.run_with(simulator);
        e2.run_with(simulator);
        e3.run_with(simulator);
        e4.run_with(simulator);
        e5.run_with(simulator);
        e6.run_with(simulator);
        e7.run_with(simulator);
        e8.run_with(simulator);
        e9.run_with(simulator);
        e10.run_with(simulator);
        e11.run_with(simulator);
        e12.run_with(simulator);
        e13.run_with(simulator);
        e14.run_with(simulator);
        e15.run_with(simulator);
        e16.run_with(simulator);
        e17.run_with(simulator);
        e18.run_with(simulator);
        e19.run_with(simulator);
        e20.run_with(simulator);
        e21.run_with(simulator);
        e22.run_with(simulator);
        e23.run_with(simulator);
        e24.run_with(simulator);
    }
}

impl<I0, I1, I2, I3, I4, I5, I6, I7, I8, I9, I10, I11, I12, I13, I14, I15, I16, I17, I18, I19, I20, I21, I22, I23, I24, I25, Smltr: View> Simulatable<Smltr> for Sequence<(I0, I1, I2, I3, I4, I5, I6, I7, I8, I9, I10, I11, I12, I13, I14, I15, I16, I17, I18, I19, I20, I21, I22, I23, I24, I25)> where
    I0: Simulatable<Smltr>,
    I1: Simulatable<Smltr>,
    I2: Simulatable<Smltr>,
    I3: Simulatable<Smltr>,
    I4: Simulatable<Smltr>,
    I5: Simulatable<Smltr>,
    I6: Simulatable<Smltr>,
    I7: Simulatable<Smltr>,
    I8: Simulatable<Smltr>,
    I9: Simulatable<Smltr>,
    I10: Simulatable<Smltr>,
    I11: Simulatable<Smltr>,
    I12: Simulatable<Smltr>,
    I13: Simulatable<Smltr>,
    I14: Simulatable<Smltr>,
    I15: Simulatable<Smltr>,
    I16: Simulatable<Smltr>,
    I17: Simulatable<Smltr>,
    I18: Simulatable<Smltr>,
    I19: Simulatable<Smltr>,
    I20: Simulatable<Smltr>,
    I21: Simulatable<Smltr>,
    I22: Simulatable<Smltr>,
    I23: Simulatable<Smltr>,
    I24: Simulatable<Smltr>,
    I25: Simulatable<Smltr>,
 {
    open spec fn played(self, before: Smltr::V) -> Smltr::V {
        let s0 = (self.0).0.played(before);
        let s1 = (self.0).1.played(s0);
        let s2 = (self.0).2.played(s1);
        let s3 = (self.0).3.played(s2);
        let s4 = (self.0).4.played(s3);
        let s5 = (self.0).5.played(s4);
        let s6 = (self.0).6.played(s5);
        let s7 = (self.0).7.played(s6);
        let s8 = (self.0).8.played(s7);
        let s9 = (self.0).9.played(s8);
        let s10 = (self.0).10.played(s9);
        let s11 = (self.0).11.played(s10);
        let s12 = (self.0).12.played(s11);
        let s13 = (self.0).13.played(s12);
        let s14 = (self.0).14.played(s13);
        let s15 = (self.0).15.played(s14);
        let s16 = (self.0).16.played(s15);
        let s17 = (self.0).17.played(s16);
        let s18 = (self.0).18.played(s17);
        let s19 = (self.0).19.played(s18);
        let s20 = (self.0).20.played(s19);
        let s21 = (self.0).21.played(s20);
        let s22 = (self.0).22.played(s21);
        let s23 = (self.0).23.played(s22);
        let s24 = (self.0).24.played(s23);
        let s25 = (self.0).25.played(s24);
        s25
    }

    fn run_with(self, simulator: &mut Smltr) {
        let (e0, e1, e2, e3, e4, e5, e6, e7, e8, e9, e10, e11, e12, e13, e14, e15, e16, e17, e18, e19, e20, e21, e22, e23, e24, e25) = self.0;
        e0.run_with(simulator);
        e1.run_with(simulator);
        e2.run_with(simulator);
        e3.run_with(simulator);
        e4.run_with(simulator);
        e5.run_with(simulator);
        e6.run_with(simulator);
        e7.run_with(simulator);
        e8.run_with(simulator);
        e9.run_with(simulator);
        e10.run_with(simulator);
        e11.run_with(simulator);
        e12.run_with(simulator);
        e13.run_with(simulator);
        e14.run_with(simulator);
        e15.run_with(simulator);
        e16.run_with(simulator);
        e17.run_with(simulator);
        e18.run_with(simulator);
        e19.run_with(simulator);
        e20.run_with(simulator);
        e21.run_with(simulator);
        e22.run_with(simulator);
        e23.run_with(simulator);
        e24.run_with(simulator);
        e25.run_with(simulator);
    }
}

impl<I0, I1, I2, I3, I4, I5, I6, I7, I8, I9, I10, I11, I12, I13, I14, I15, I16, I17, I18, I19, I20, I21, I22, I23, I24, I25, I26, Smltr: View> Simulatable<Smltr> for Sequence<(I0, I1, I2, I3, I4, I5, I6, I7, I8, I9, I10, I11, I12, I13, I14, I15, I16, I17, I18, I19, I20, I21, I22, I23, I24, I25, I26)> where
    I0: Simulatable<Smltr>,
    I1: Simulatable<Smltr>,
    I2: Simulatable<Smltr>,
    I3: Simulatable<Smltr>,
    I4: Simulatable<Smltr>,
    I5: Simulatable<Smltr>,
    I6: Simulatable<Smltr>,
    I7: Simulatable<Smltr>,
    I8: Simulatable<Smltr>,
    I9: Simulatable<Smltr>,
    I10: Simulatable<Smltr>,
    I11: Simulatable<Smltr>,
    I12: Simulatable<Smltr>,
    I13: Simulatable<Smltr>,
    I14: Simulatable<Smltr>,
    I15: Simulatable<Smltr>,
    I16: Simulatable<Smltr>,
    I17: Simulatable<Smltr>,
    I18: Simulatable<Smltr>,
    I19: Simulatable<Smltr>,
    I20: Simulatable<Smltr>,
    I21: Simulatable<Smltr>,
    I22: Simulatable<Smltr>,
    I23: Simulatable<Smltr>,
    I24: Simulatable<Smltr>,
    I25: Simulatable<Smltr>,
    I26: Simulatable<Smltr>,
 {
    open spec fn played(self, before: Smltr::V) -> Smltr::V {
        let s0 = (self.0).0.played(before);
        let s1 = (self.0).1.played(s0);
        let s2 = (self.0).2.played(s1);
        let s3 = (self.0).3.played(s2);
        let s4 = (self.0).4.played(s3);
        let s5 = (self.0).5.played(s4);
        let s6 = (self.0).6.played(s5);
        let s7 = (self.0).7.played(s6);
        let s8 = (self.0).8.played(s7);
        let s9 = (self.0).9.played(s8);
        let s10 = (self.0).10.played(s9);
        let s11 = (self.0).11.played(s10);
        let s12 = (self.0).12.played(s11);
        let s13 = (self.0).13.played(s12);
        let s14 = (self.0).14.played(s13);
        let s15 = (self.0).15.played(s14);
        let s16 = (self.0).16.played(s15);
        let s17 = (self.0).17.played(s16);
        let s18 = (self.0).18.played(s17);
        let s19 = (self.0).19.played(s18);
        let s20 = (self.0).20.played(s19);
        let s21 = (self.0).21.played(s20);
        let s22 = (self.0).22.played(s21);
        let s23 = (self.0).23.played(s22);
        let s24 = (self.0).24.played(s23);
        let s25 = (self.0).25.played(s24);
        let s26 = (self.0).26.played(s25);
        s26
    }

    fn run_with(self, simulator: &mut Smltr) {
        let (e0, e1, e2, e3, e4, e5, e6, e7, e8, e9, e10, e11, e12, e13, e14, e15, e16, e17, e18, e19, e20, e21, e22, e23, e24, e25, e26) = self.0;
        e0.run_with(simulator);
        e1.run_with(simulator);
        e2.run_with(simulator);
        e3.run_with(simulator);
        e4.run_with(simulator);
        e5.run_with(simulator);
        e6.run_with(simulator);
        e7.run_with(simulator);
        e8.run_with(simulator);
        e9.run_with(simulator);
        e10.run_with(simulator);
        e11.run_with(simulator);
        e12.run_with(simulator);
        e13.run_with(simulator);
        e14.run_with(simulator);
        e15.run_with(simulator);
        e16.run_with(simulator);
        e17.run_with(simulator);
        e18.run_with(simulator);
        e19.run_with(simulator);
        e20.run_with(simulator);
        e21.run_with(simulator);
        e22.run_with(simulator);
        e23.run_with(simulator);
        e24.run_with(simulator);
        e25.run_with(simulator);
        e26.run_with(simulator);
    }
}

impl<I0, I1, I2, I3, I4, I5, I6, I7, I8, I9, I10, I11, I12, I13, I14, I15, I16, I17, I18, I19, I20, I21, I22, I23, I24, I25, I26, I27, Smltr: View> Simulatable<Smltr> for Sequence<(I0, I1, I2, I3, I4, I5, I6, I7, I8, I9, I10, I11, I12, I13, I14, I15, I16, I17, I18, I19, I20, I21, I22, I23, I24, I25, I26, I27)> where
    I0: Simulatable<Smltr>,
    I1: Simulatable<Smltr>,
    I2: Simulatable<Smltr>,
    I3: Simulatable<Smltr>,
    I4: Simulatable<Smltr>,
    I5: Simulatable<Smltr>,
    I6: Simulatable<Smltr>,
    I7: Simulatable<Smltr>,
    I8: Simulatable<Smltr>,
    I9: Simulatable<Smltr>,
    I10: Simulatable<Smltr>,
    I11: Simulatable<Smltr>,
    I12: Simulatable<Smltr>,
    I13: Simulatable<Smltr>,
    I14: Simulatable<Smltr>,
    I15: Simulatable<Smltr>,
    I16: Simulatable<Smltr>,
    I17: Simulatable<Smltr>,
    I18: Simulatable<Smltr>,
    I19: Simulatable<Smltr>,
    I20: Simulatable<Smltr>,
    I21: Simulatable<Smltr>,
    I22: Simulatable<Smltr>,
    I23: Simulatable<Smltr>,
    I24: Simulatable<Smltr>,
    I25: Simulatable<Smltr>,
    I26: Simulatable<Smltr>,
    I27: Simulatable<Smltr>,
 {
    open spec fn played(self, before: Smltr::V) -> Smltr::V {
        let s0 = (self.0).0.played(before);
        let s1 = (self.0).1.played(s0);
        let s2 = (self.0).2.played(s1);
        let s3 = (self.0).3.played(s2);
        let s4 = (self.0).4.played(s3);
        let s5 = (self.0).5.played(s4);
        let s6 = (self.0).6.played(s5);
        let s7 = (self.0).7.played(s6);
        let s8 = (self.0).8.played(s7);
        let s9 = (self.0).9.played(s8);
        let s10 = (self.0).10.played(s9);
        let s11 = (self.0).11.played(s10);
        let s12 = (self.0).12.played(s11);
        let s13 = (self.0).13.played(s12);
        let s14 = (self.0).14.played(s13);
        let s15 = (self.0).15.played(s14);
        let s16 = (self.0).16.played(s15);
        let s17 = (self.0).17.played(s16);
        let s18 = (self.0).18.played(s17);
        let s19 = (self.0).19.played(s18);
        let s20 = (self.0).20.played(s19);
        let s21 = (self.0).21.played(s20);
        let s22 = (self.0).22.played(s21);
        let s23 = (self.0).23.played(s22);
        let s24 = (self.0).24.played(s23);
        let s25 = (self.0).25.played(s24);
        let s26 = (self.0).26.played(s25);
        let s27 = (self.0).27.played(s26);
        s27
    }

    fn run_with(self, simulator: &mut Smltr) {
        let (e0, e1, e2, e3, e4, e5, e6, e7, e8, e9, e10, e11, e12, e13, e14, e15, e16, e17, e18, e19, e20, e21, e22, e23, e24, e25, e26, e27) = self.0;
        e0.run_with(simulator);
        e1.run_with(simulator);
        e2.run_with(simulator);
        e3.run_with(simulator);
        e4.run_with(simulator);
        e5.run_with(simulator);
        e6.run_with(simulator);
        e7.run_with(simulator);
        e8.run_with(simulator);
        e9.run_with(simulator);
        e10.run_with(simulator);
        e11.run_with(simulator);
        e12.run_with(simulator);
        e13.run_with(simulator);
        e14.run_with(simulator);
        e15.run_with(simulator);
        e16.run_with(simulator);
        e17.run_with(simulator);
        e18.run_with(simulator);
        e19.run_with(simulator);
        e20.run_with(simulator);
        e21.run_with(simulator);
        e22.run_with(simulator);
        e23.run_with(simulator);
        e24.run_with(simulator);
        e25.run_with(simulator);
        e26.run_with(simulator);
        e27.run_with(simulator);
    }
}

impl<I0, I1, I2, I3, I4, I5, I6, I7, I8, I9, I10, I11, I12, I13, I14, I15, I16, I17, I18, I19, I20, I21, I22, I23, I24, I25, I26, I27, I28, Smltr: View> Simulatable<Smltr> for Sequence<(I0, I1, I2, I3, I4, I5, I6, I7, I8, I9, I10, I11, I12, I13, I14, I15, I16, I17, I18, I19, I20, I21, I22, I23, I24, I25, I26, I27, I28)> where
    I0: Simulatable<Smltr>,
    I1: Simulatable<Smltr>,
    I2: Simulatable<Smltr>,
    I3: Simulatable<Smltr>,
    I4: Simulatable<Smltr>,
    I5: Simulatable<Smltr>,
    I6: Simulatable<Smltr>,
    I7: Simulatable<Smltr>,
    I8: Simulatable<Smltr>,
    I9: Simulatable<Smltr>,
    I10: Simulatable<Smltr>,
    I11: Simulatable<Smltr>,
    I12: Simulatable<Smltr>,
    I13: Simulatable<Smltr>,
    I14: Simulatable<Smltr>,
    I15: Simulatable<Smltr>,
    I16: Simulatable<Smltr>,
    I17: Simulatable<Smltr>,
    I18: Simulatable<Smltr>,
    I19: Simulatable<Smltr>,
    I20: Simulatable<Smltr>,
    I21: Simulatable<Smltr>,
    I22: Simulatable<Smltr>,
    I23: Simulatable<Smltr>,
    I24: Simulatable<Smltr>,
    I25: Simulatable<Smltr>,
    I26: Simulatable<Smltr>,
    I27: Simulatable<Smltr>,
    I28: Simulatable<Smltr>,
 {
    open spec fn played(self, before: Smltr::V) -> Smltr::V {
        let s0 = (self.0).0.played(before);
        let s1 = (self.0).1.played(s0);
        let s2 = (self.0).2.played(s1);
        let s3 = (self.0).3.played(s2);
        let s4 = (self.0).4.played(s3);
        let s5 = (self.0).5.played(s4);
        let s6 = (self.0).6.played(s5);
        let s7 = (self.0).7.played(s6);
        let s8 = (self.0).8.played(s7);
        let s9 = (self.0).9.played(s8);
        let s10 = (self.0).10.played(s9);
        let s11 = (self.0).11.played(s10);
        let s12 = (self.0).12.played(s11);
        let s13 = (self.0).13.played(s12);
        let s14 = (self.0).14.played(s13);
        let s15 = (self.0).15.played(s14);
        let s16 = (self.0).16.played(s15);
        let s17 = (self.0).17.played(s16);
        let s18 = (self.0).18.played(s17);
        let s19 = (self.0).19.played(s18);
        let s20 = (self.0).20.played(s19);
        let s21 = (self.0).21.played(s20);
        let s22 = (self.0).22.played(s21);
        let s23 = (self.0).23.played(s22);
        let s24 = (self.0).24.played(s23);
        let s25 = (self.0).25.played(s24);
        let s26 = (self.0).26.played(s25);
        let s27 = (self.0).27.played(s26);
        let s28 = (self.0).28.played(s27);
        s28
    }

    fn run_with(self, simulator: &mut Smltr) {
        let (e0, e1, e2, e3, e4, e5, e6, e7, e8, e9, e10, e11, e12, e13, e14, e15, e16, e17, e18, e19, e20, e21, e22, e23, e24, e25, e26, e27, e28) = self.0;
        e0.run_with(simulator);
        e1.run_with(simulator);
        e2.run_with(simulator);
        e3.run_with(simulator);
        e4.run_with(simulator);
        e5.run_with(simulator);
        e6.run_with(simulator);
        e7.run_with(simulator);
        e8.run_with(simulator);
        e9.run_with(simulator);
        e10.run_with(simulator);
        e11.run_with(simulator);
        e12.run_with(simulator);
        e13.run_with(simulator);
        e14.run_with(simulator);
        e15.run_with(simulator);
        e16.run_with(simulator);
        e17.run_with(simulator);
        e18.run_with(simulator);
        e19.run_with(simulator);
        e20.run_with(simulator);
        e21.run_with(simulator);
        e22.run_with(simulator);
        e23.run_with(simulator);
        e24.run_with(simulator);
        e25.run_with(simulator);
        e26.run_with(simulator);
        e27.run_with(simulator);
        e28.run_with(simulator);
    }
}

impl<I0, I1, I2, I3, I4, I5, I6, I7, I8, I9, I10, I11, I12, I13, I14, I15, I16, I17, I18, I19, I20, I21, I22, I23, I24, I25, I26, I27, I28, I29, Smltr: View> Simulatable<Smltr> for Sequence<(I0, I1, I2, I3, I4, I5, I6, I7, I8, I9, I10, I11, I12, I13, I14, I15, I16, I17, I18, I19, I20, I21, I22, I23, I24, I25, I26, I27, I28, I29)> where
    I0: Simulatable<Smltr>,
    I1: Simulatable<Smltr>,
    I2: Simulatable<Smltr>,
    I3: Simulatable<Smltr>,
    I4: Simulatable<Smltr>,
    I5: Simulatable<Smltr>,
    I6: Simulatable<Smltr>,
    I7: Simulatable<Smltr>,
    I8: Simulatable<Smltr>,
    I9: Simulatable<Smltr>,
    I10: Simulatable<Smltr>,
    I11: Simulatable<Smltr>,
    I12: Simulatable<Smltr>,
    I13: Simulatable<Smltr>,
    I14: Simulatable<Smltr>,
    I15: Simulatable<Smltr>,
    I16: Simulatable<Smltr>,
    I17: Simulatable<Smltr>,
    I18: Simulatable<Smltr>,
    I19: Simulatable<Smltr>,
    I20: Simulatable<Smltr>,
    I21: Simulatable<Smltr>,
    I22: Simulatable<Smltr>,
    I23: Simulatable<Smltr>,
    I24: Simulatable<Smltr>,
    I25: Simulatable<Smltr>,
    I26: Simulatable<Smltr>,
    I27: Simulatable<Smltr>,
    I28: Simulatable<Smltr>,
    I29: Simulatable<Smltr>,
 {
    open spec fn played(self, before: Smltr::V) -> Smltr::V {
        let s0 = (self.0).0.played(before);
        let s1 = (self.0).1.played(s0);
        let s2 = (self.0).2.played(s1);
        let s3 = (self.0).3.played(s2);
        let s4 = (self.0).4.played(s3);
        let s5 = (self.0).5.played(s4);
        let s6 = (self.0).6.played(s5);
        let s7 = (self.0).7.played(s6);
        let s8 = (self.0).8.played(s7);
        let s9 = (self.0).9.played(s8);
        let s10 = (self.0).10.played(s9);
        let s11 = (self.0).11.played(s10);
        let s12 = (self.0).12.played(s11);
        let s13 = (self.0).13.played(s12);
        let s14 = (self.0).14.played(s13);
        let s15 = (self.0).15.played(s14);
        let s16 = (self.0).16.played(s15);
        let s17 = (self.0).17.played(s16);
        let s18 = (self.0).18.played(s17);
        let s19 = (self.0).19.played(s18);
        let s20 = (self.0).20.played(s19);
        let s21 = (self.0).21.played(s20);
        let s22 = (self.0).22.played(s21);
        let s23 = (self.0).23.played(s22);
        let s24 = (self.0).24.played(s23);
        let s25 = (self.0).25.played(s24);
        let s26 = (self.0).26.played(s25);
        let s27 = (self.0).27.played(s26);
        let s28 = (self.0).28.played(s27);
        let s29 = (self.0).29.played(s28);
        s29
    }

    fn run_with(self, simulator: &mut Smltr) {
        let (e0, e1, e2, e3, e4, e5, e6, e7, e8, e9, e10, e11, e12, e13, e14, e15, e16, e17, e18, e19, e20, e21, e22, e23, e24, e25, e26, e27, e28, e29) = self.0;
        e0.run_with(simulator);
        e1.run_with(simulator);
        e2.run_with(simulator);
        e3.run_with(simulator);
        e4.run_with(simulator);
        e5.run_with(simulator);
        e6.run_with(simulator);
        e7.run_with(simulator);
        e8.run_with(simulator);
        e9.run_with(simulator);
        e10.run_with(simulator);
        e11.run_with(simulator);
        e12.run_with(simulator);
        e13.run_with(simulator);
        e14.run_with(simulator);
        e15.run_with(simulator);
        e16.run_with(simulator);
        e17.run_with(simulator);
        e18.run_with(simulator);
        e19.run_with(simulator);
        e20.run_with(simulator);
        e21.run_with(simulator);
        e22.run_with(simulator);
        e23.run_with(simulator);
        e24.run_with(simulator);
        e25.run_with(simulator);
        e26.run_with(simulator);
        e27.run_with(simulator);
        e28.run_with(simulator);
        e29.run_with(simulator);
    }
}

impl<I0, I1, I2, I3, I4, I5, I6, I7, I8, I9, I10, I11, I12, I13, I14, I15, I16, I17, I18, I19, I20, I21, I22, I23, I24, I25, I26, I27, I28, I29, I30, Smltr: View> Simulatable<Smltr> for Sequence<(I0, I1, I2, I3, I4, I5, I6, I7, I8, I9, I10, I11, I12, I13, I14, I15, I16, I17, I18, I19, I20, I21, I22, I23, I24, I25, I26, I27, I28, I29, I30)> where
    I0: Simulatable<Smltr>,
    I1: Simulatable<Smltr>,
    I2: Simulatable<Smltr>,
    I3: Simulatable<Smltr>,
    I4: Simulatable<Smltr>,
    I5: Simulatable<Smltr>,
    I6: Simulatable<Smltr>,
    I7: Simulatable<Smltr>,
    I8: Simulatable<Smltr>,
    I9: Simulatable<Smltr>,
    I10: Simulatable<Smltr>,
    I11: Simulatable<Smltr>,
    I12: Simulatable<Smltr>,
    I13: Simulatable<Smltr>,
    I14: Simulatable<Smltr>,
    I15: Simulatable<Smltr>,
    I16: Simulatable<Smltr>,
    I17: Simulatable<Smltr>,
    I18: Simulatable<Smltr>,
    I19: Simulatable<Smltr>,
    I20: Simulatable<Smltr>,
    I21: Simulatable<Smltr>,
    I22: Simulatable<Smltr>,
    I23: Simulatable<Smltr>,
    I24: Simulatable<Smltr>,
    I25: Simulatable<Smltr>,
    I26: Simulatable<Smltr>,
    I27: Simulatable<Smltr>,
    I28: Simulatable<Smltr>,
    I29: Simulatable<Smltr>,
    I30: Simulatable<Smltr>,
 {
    open spec fn played(self, before: Smltr::V) -> Smltr::V {
        let s0 = (self.0).0.played(before);
        let s1 = (self.0).1.played(s0);
        let s2 = (self.0).2.played(s1);
        let s3 = (self.0).3.played(s2);
        let s4 = (self.0).4.played(s3);
        let s5 = (self.0).5.played(s4);
        let s6 = (self.0).6.played(s5);
        let s7 = (self.0).7.played(s6);
        let s8 = (self.0).8.played(s7);
        let s9 = (self.0).9.played(s8);
        let s10 = (self.0).10.played(s9);
        let s11 = (self.0).11.played(s10);
        let s12 = (self.0).12.played(s11);
        let s13 = (self.0).13.played(s12);
        let s14 = (self.0).14.played(s13);
        let s15 = (self.0).15.played(s14);
        let s16 = (self.0).16.played(s15);
        let s17 = (self.0).17.played(s16);
        let s18 = (self.0).18.played(s17);
        let s19 = (self.0).19.played(s18);
        let s20 = (self.0).20.played(s19);
        let s21 = (self.0).21.played(s20);
        let s22 = (self.0).22.played(s21);
        let s23 = (self.0).23.played(s22);
        let s24 = (self.0).24.played(s23);
        let s25 = (self.0).25.played(s24);
        let s26 = (self.0).26.played(s25);
        let s27 = (self.0).27.played(s26);
        let s28 = (self.0).28.played(s27);
        let s29 = (self.0).29.played(s28);
        let s30 = (self.0).30.played(s29);
        s30
    }

    fn run_with(self, simulator: &mut Smltr) {
        let (e0, e1, e2, e3, e4, e5, e6, e7, e8, e9, e10, e11, e12, e13, e14, e15, e16, e17, e18, e19, e20, e21, e22, e23, e24, e25, e26, e27, e28, e29, e30) = self.0;
        e0.run_with(simulator);
        e1.run_with(simulator);
        e2.run_with(simulator);
        e3.run_with(simulator);
        e4.run_with(simulator);
        e5.run_with(simulator);
        e6.run_with(simulator);
        e7.run_with(simulator);
        e8.run_with(simulator);
        e9.run_with(simulator);
        e10.run_with(simulator);
        e11.run_with(simulator);
        e12.run_with(simulator);
        e13.run_with(simulator);
        e14.run_with(simulator);
        e15.run_with(simulator);
        e16.run_with(simulator);
        e17.run_with(simulator);
        e18.run_with(simulator);
        e19.run_with(simulator);
        e20.run_with(simulator);
        e21.run_with(simulator);
        e22.run_with(simulator);
        e23.run_with(simulator);
        e24.run_with(simulator);
        e25.run_with(simulator);
        e26.run_with(simulator);
        e27.run_with(simulator);
        e28.run_with(simulator);
        e29.run_with(simulator);
        e30.run_with(simulator);
    }
}

impl<I0, I1, I2, I3, I4, I5, I6, I7, I8, I9, I10, I11, I12, I13, I14, I15, I16, I17, I18, I19, I20, I21, I22, I23, I24, I25, I26, I27, I28, I29, I30, I31, Smltr: View> Simulatable<Smltr> for Sequence<(I0, I1, I2, I3, I4, I5, I6, I7, I8, I9, I10, I11, I12, I13, I14, I15, I16, I17, I18, I19, I20, I21, I22, I23, I24, I25, I26, I27, I28, I29, I30, I31)> where
    I0: Simulatable<Smltr>,
    I1: Simulatable<Smltr>,
    I2: Simulatable<Smltr>,
    I3: Simulatable<Smltr>,
    I4: Simulatable<Smltr>,
    I5: Simulatable<Smltr>,
    I6: Simulatable<Smltr>,
    I7: Simulatable<Smltr>,
    I8: Simulatable<Smltr>,
    I9: Simulatable<Smltr>,
    I10: Simulatable<Smltr>,
    I11: Simulatable<Smltr>,
    I12: Simulatable<Smltr>,
    I13: Simulatable<Smltr>,
    I14: Simulatable<Smltr>,
    I15: Simulatable<Smltr>,
    I16: Simulatable<Smltr>,
    I17: Simulatable<Smltr>,
    I18: Simulatable<Smltr>,
    I19: Simulatable<Smltr>,
    I20: Simulatable<Smltr>,
    I21: Simulatable<Smltr>,
    I22: Simulatable<Smltr>,
    I23: Simulatable<Smltr>,
    I24: Simulatable<Smltr>,
    I25: Simulatable<Smltr>,
    I26: Simulatable<Smltr>,
    I27: Simulatable<Smltr>,
    I28: Simulatable<Smltr>,
    I29: Simulatable<Smltr>,
    I30: Simulatable<Smltr>,
    I31: Simulatable<Smltr>,
 {
    open spec fn played(self, before: Smltr::V) -> Smltr::V {
        let s0 = (self.0).0.played(before);
        let s1 = (self.0).1.played(s0);
        let s2 = (self.0).2.played(s1);
        let s3 = (self.0).3.played(s2);
        let s4 = (self.0).4.played(s3);
        let s5 = (self.0).5.played(s4);
        let s6 = (self.0).6.played(s5);
        let s7 = (self.0).7.played(s6);
        let s8 = (self.0).8.played(s7);
        let s9 = (self.0).9.played(s8);
        let s10 = (self.0).10.played(s9);
        let s11 = (self.0).11.played(s10);
        let s12 = (self.0).12.played(s11);
        let s13 = (self.0).13.played(s12);
        let s14 = (self.0).14.played(s13);
        let s15 = (self.0).15.played(s14);
        let s16 = (self.0).16.played(s15);
        let s17 = (self.0).17.played(s16);
        let s18 = (self.0).18.played(s17);
        let s19 = (self.0).19.played(s18);
        let s20 = (self.0).20.played(s19);
        let s21 = (self.0).21.played(s20);
        let s22 = (self.0).22.played(s21);
        let s23 = (self.0).23.played(s22);
        let s24 = (self.0).24.played(s23);
        let s25 = (self.0).25.played(s24);
        let s26 = (self.0).26.played(s25);
        let s27 = (self.0).27.played(s26);
        let s28 = (self.0).28.played(s27);
        let s29 = (self.0).29.played(s28);
        let s30 = (self.0).30.played(s29);
        let s31 = (self.0).31.played(s30);
        s31
    }

    fn run_with(self, simulator: &mut Smltr) {
        let (e0, e1, e2, e3, e4, e5, e6, e7, e8, e9, e10, e11, e12, e13, e14, e15, e16, e17, e18, e19, e20, e21, e22, e23, e24, e25, e26, e27, e28, e29, e30, e31) = self.0;
        e0.run_with(simulator);
        e1.run_with(simulator);
        e2.run_with(simulator);
        e3.run_with(simulator);
        e4.run_with(simulator);
        e5.run_with(simulator);
        e6.run_with(simulator);
        e7.run_with(simulator);
        e8.run_with(simulator);
        e9.run_with(simulator);
        e10.run_with(simulator);
        e11.run_with(simulator);
        e12.run_with(simulator);
        e13.run_with(simulator);
        e14.run_with(simulator);
        e15.run_with(simulator);
        e16.run_with(simulator);
        e17.run_with(simulator);
        e18.run_with(simulator);
        e19.run_with(simulator);
        e20.run_with(simulator);
        e21.run_with(simulator);
        e22.run_with(simulator);
        e23.run_with(simulator);
        e24.run_with(simulator);
        e25.run_with(simulator);
        e26.run_with(simulator);
        e27.run_with(simulator);
        e28.run_with(simulator);
        e29.run_with(simulator);
        e30.run_with(simulator);
        e31.run_with(simulator);
    }
}

/// Plays `items` from the first to the last, taking each out of the vector before playing it.
fn play_all<E, Smltr: View>(items: Vec<E>, simulator: &mut Smltr)
    where E: Simulatable<Smltr>,
    ensures
        final(simulator)@ == played_in_order::<E, Smltr>(items@, old(simulator)@),
{
    let ghost all = items@;
    let total: usize = items.len();
    let mut rest = items;
    let mut done: usize = 0;
    while rest.len() > 0
        invariant
            total == all.len(),
            done + rest@.len() == all.len(),
            rest@ == all.subrange(done as int, all.len() as int),
            simulator@ == played_in_order::<E, Smltr>(all.subrange(0, done as int), old(simulator)@),
        decreases rest@.len(),
    {
        let item = rest.remove(0);
        proof {
            assert(all.subrange(0, done + 1).drop_last() =~= all.subrange(0, done as int));
        }
        item.run_with(simulator);
        done = done + 1;
    }
    proof {
        assert(all.subrange(0, done as int) =~= all);
    }
}

impl<E, Smltr: View> Simulatable<Smltr> for Sequence<Vec<E>> where E: Simulatable<Smltr> {
    open spec fn played(self, before: Smltr::V) -> Smltr::V {
        played_in_order::<E, Smltr>(self.0@, before)
    }

    fn run_with(self, simulator: &mut Smltr) {
        play_all(self.0, simulator);
    }
}

/// Play the items of a collection one after the other, in the order they are taken out.
#[derive(Debug, Clone, Copy, PartialEq, Eq, PartialOrd, Ord, Hash)]
pub struct IterSequence<I> {
    pub iter: I,
}

impl<E, Smltr: View> Simulatable<Smltr> for IterSequence<Vec<E>> where E: Simulatable<Smltr> {
    open spec fn played(self, before: Smltr::V) -> Smltr::V {
        played_in_order::<E, Smltr>(self.iter@, before)
    }

    fn run_with(self, simulator: &mut Smltr) {
        play_all(self.iter, simulator);
    }
}

} // verus!

verus! {

/// Builders for the combinators, available on every value.
///
/// Each builder only wraps its operands: nothing is played until `run_with`.
pub trait Combine: Sized {
    /// Play `self`, then `next`.
    fn and_then<N>(self, next: N) -> (r: Sequence<(Self, N)>)
        ensures
            r == Sequence((self, next)),
    {
        Sequence((self, next))
    }

    /// Play `self`, then wait for `duration`.
    fn sleep(self, duration: Duration) -> (r: Sequence<(Self, Sleep)>)
        ensures
            r == Sequence((self, Sleep(duration))),
    {
        self.and_then(Sleep::new(duration))
    }

    /// Play `self`, then wait for `ms` milliseconds.
    fn sleep_ms(self, ms: u64) -> (r: Sequence<(Self, Sleep)>)
        ensures
            (r.0).0 == self,
            nanos_of(((r.0).1).0) == ms * 1_000_000,
    {
        self.sleep(millis(ms))
    }

    /// Play `self` the given number of times.
    fn repeat(self, times: usize) -> (r: Repeat<Self>)
        ensures
            r == (Repeat { simulate: self, times }),
    {
        Repeat { simulate: self, times }
    }

    /// Play `self` only if `condition` holds.
    fn only_if(self, condition: bool) -> (r: OnlyIf<Self>)
        ensures
            r == (OnlyIf { event: self, condition }),
    {
        OnlyIf { event: self, condition }
    }

    /// Play the items of the collection `self`, one after the other.
    fn iter_seq(self) -> (r: IterSequence<Self>)
        ensures
            r == (IterSequence { iter: self }),
    {
        IterSequence { iter: self }
    }

    /// Play the items of the tuple (or vector) `self` from position 0 upwards.
    fn seq(self) -> (r: Sequence<Self>)
        ensures
            r == Sequence(self),
    {
        Sequence(self)
    }

    /// Play `self` inside the bracket `during`: `during` first, its inverse last.
    fn during<DS>(self, during: DS) -> (r: During<DS, Self>)
        where DS: Invert + Copy,
        ensures
            r == (During { during, simulate: self }),
    {
        During { during, simulate: self }
    }
}

impl<S> Combine for S {
}

} // verus!
