//! What playback guarantees, stated over the views of simulators and proved.
//!
//! The trace laws are stated against `EventLogger`, whose view is the record of the events
//! played against it; the others hold for every simulator.
use vstd::prelude::*;

use crate::combinator::{
    played_in_order, repeated, During, IterSequence, OnlyIf, Repeat, Sequence, Sleep,
};
use crate::input_event::{Invert, SetTo};
use crate::simulatable::Simulatable;
use crate::simulatable_pack::{Bound, SimulatablePackInner};
use crate::simulators::event_log::EventLogger;

verus! {

/// The record of a logger once `x` has been played against it, starting from `before`.
pub open spec fn logged<X: Simulatable<EventLogger<E>>, E>(x: X, before: Seq<E>) -> Seq<E> {
    x.played(before)
}

/// Whether playing `x` against a logger appends exactly `trace` to the record, whatever
/// the record held before.
pub open spec fn records<X: Simulatable<EventLogger<E>>, E>(x: X, trace: Seq<E>) -> bool {
    forall|before: Seq<E>| #[trigger] logged(x, before) == before + trace
}

/// `trace` written `times` times in a row.
pub open spec fn repeat_trace<E>(trace: Seq<E>, times: nat) -> Seq<E>
    decreases times,
{
    if times == 0 {
        Seq::empty()
    } else {
        repeat_trace(trace, (times - 1) as nat) + trace
    }
}

/// An atomic event records itself, and nothing else.
pub proof fn lemma_atomic_records_itself<I, V>(event: SetTo<I, V>)
    ensures
        records(event, seq![event]),
{
    assert forall|before: Seq<SetTo<I, V>>| #[trigger] logged(event, before) == before + seq![event] by {
        assert(before.push(event) =~= before + seq![event]);
    }
}

/// Sequencing two events records the first one's trace, then the second one's.
pub proof fn lemma_and_then_records_in_order<A, B, E>(a: A, b: B, xs: Seq<E>, ys: Seq<E>)
    where A: Simulatable<EventLogger<E>>, B: Simulatable<EventLogger<E>>,
    requires
        records(a, xs),
        records(b, ys),
    ensures
        records(Sequence((a, b)), xs + ys),
{
    assert forall|before: Seq<E>| #[trigger] logged(Sequence((a, b)), before) == before + (xs + ys) by {
        assert(logged(a, before) == before + xs);
        assert(logged(b, before + xs) == (before + xs) + ys);
        assert((before + xs) + ys =~= before + (xs + ys));
    }
}

/// A tuple of three events, sequenced, records each one's trace in ascending position.
pub proof fn lemma_tuple_sequence_records_in_order<A, B, C, E>(
    a: A,
    b: B,
    c: C,
    xs: Seq<E>,
    ys: Seq<E>,
    zs: Seq<E>,
)
    where A: Simulatable<EventLogger<E>>, B: Simulatable<EventLogger<E>>, C: Simulatable<EventLogger<E>>,
    requires
        records(a, xs),
        records(b, ys),
        records(c, zs),
    ensures
        records(Sequence((a, b, c)), xs + ys + zs),
{
    assert forall|before: Seq<E>| #[trigger] logged(Sequence((a, b, c)), before) == before + (xs
        + ys + zs) by {
        assert(logged(a, before) == before + xs);
        assert(logged(b, before + xs) == (before + xs) + ys);
        assert(logged(c, (before + xs) + ys) == ((before + xs) + ys) + zs);
        assert(((before + xs) + ys) + zs =~= before + (xs + ys + zs));
    }
}

/// Waiting records nothing.
pub proof fn lemma_sleep_records_nothing<E>(sleep: Sleep)
    ensures
        records::<Sleep, E>(sleep, Seq::empty()),
{
    assert forall|before: Seq<E>| #[trigger] logged(sleep, before) == before + Seq::<E>::empty() by {
        assert(before + Seq::<E>::empty() =~= before);
    }
}

/// A sequence of atomic events, played in order, records exactly those events in that order.
pub proof fn lemma_atomic_sequence_records_in_order<I, V>(
    events: Seq<SetTo<I, V>>,
    before: Seq<SetTo<I, V>>,
)
    ensures
        played_in_order::<SetTo<I, V>, EventLogger<SetTo<I, V>>>(events, before) == before + events,
    decreases events.len(),
{
    if events.len() > 0 {
        lemma_atomic_sequence_records_in_order(events.drop_last(), before);
        assert(events =~= events.drop_last().push(events.last()));
        assert((before + events.drop_last()).push(events.last()) =~= before + events);
    } else {
        assert(before + events =~= before);
    }
}

/// A sequence built from a vector of atomic events records exactly that vector.
pub proof fn lemma_vector_sequence_records<I, V>(events: Vec<SetTo<I, V>>)
    ensures
        records(Sequence(events), events@),
{
    assert forall|before: Seq<SetTo<I, V>>| #[trigger] logged(Sequence(events), before)
        == before + events@ by {
        lemma_atomic_sequence_records_in_order(events@, before);
    }
}

/// Repeating an event `times` times records its trace `times` times over.
pub proof fn lemma_repeat_records_trace_times<X, E>(x: X, xs: Seq<E>, times: usize)
    where X: Simulatable<EventLogger<E>> + Copy,
    requires
        records(x, xs),
    ensures
        records((Repeat { simulate: x, times }), repeat_trace(xs, times as nat)),
{
    assert forall|before: Seq<E>| #[trigger] logged(Repeat { simulate: x, times }, before)
        == before + repeat_trace(xs, times as nat) by {
        lemma_repeated_appends(x, xs, times as nat, before);
    }
}

proof fn lemma_repeated_appends<X, E>(x: X, xs: Seq<E>, times: nat, before: Seq<E>)
    where X: Simulatable<EventLogger<E>>,
    requires
        records(x, xs),
    ensures
        repeated::<X, EventLogger<E>>(x, times, before) == before + repeat_trace(xs, times),
    decreases times,
{
    if times == 0 {
        assert(before + Seq::<E>::empty() =~= before);
    } else {
        lemma_repeated_appends(x, xs, (times - 1) as nat, before);
        let mid = before + repeat_trace(xs, (times - 1) as nat);
        assert(logged(x, mid) == mid + xs);
        assert(mid + xs =~= before + repeat_trace(xs, times));
    }
}

/// Zero repetitions leave any simulator as it was.
pub proof fn lemma_repeat_zero_is_identity<X, S: View>(x: X, before: S::V)
    where X: Simulatable<S> + Copy,
    ensures
        (Repeat { simulate: x, times: 0 }).played(before) == before,
{
}

/// Bracketing an event with a press records the press, the event's trace, then the release.
pub proof fn lemma_during_press_records_bracket<I, X>(x: X, xs: Seq<SetTo<I, bool>>, input: I)
    where X: Simulatable<EventLogger<SetTo<I, bool>>>, I: Copy,
    requires
        records(x, xs),
    ensures
        records(
            (During { during: (SetTo { input, to: true }), simulate: x }),
            seq![(SetTo { input, to: true })] + xs + seq![(SetTo { input, to: false })],
        ),
{
    let press = SetTo { input, to: true };
    let release = SetTo { input, to: false };
    assert(press.inverse() == release);
    assert forall|before: Seq<SetTo<I, bool>>| #[trigger] logged(
        During { during: press, simulate: x },
        before,
    ) == before + (seq![press] + xs + seq![release]) by {
        assert(logged(x, before.push(press)) == before.push(press) + xs);
        assert((before.push(press) + xs).push(release) =~= before + (seq![press] + xs
            + seq![release]));
    }
}

/// Nested brackets close in the reverse of the order in which they opened.
pub proof fn lemma_nested_during_closes_last_opened_first<I, X>(
    x: X,
    xs: Seq<SetTo<I, bool>>,
    inner: I,
    outer: I,
)
    where X: Simulatable<EventLogger<SetTo<I, bool>>>, I: Copy,
    requires
        records(x, xs),
    ensures
        records(
            (During {
                during: (SetTo { input: outer, to: true }),
                simulate: (During { during: (SetTo { input: inner, to: true }), simulate: x }),
            }),
            seq![(SetTo { input: outer, to: true }), (SetTo { input: inner, to: true })] + xs
                + seq![(SetTo { input: inner, to: false }), (SetTo { input: outer, to: false })],
        ),
{
    let inner_trace = seq![SetTo { input: inner, to: true }] + xs + seq![
        SetTo { input: inner, to: false },
    ];
    lemma_during_press_records_bracket(x, xs, inner);
    lemma_during_press_records_bracket(
        During { during: SetTo { input: inner, to: true }, simulate: x },
        inner_trace,
        outer,
    );
    assert(seq![SetTo { input: outer, to: true }] + inner_trace + seq![
        SetTo { input: outer, to: false },
    ] =~= seq![SetTo { input: outer, to: true }, SetTo { input: inner, to: true }] + xs + seq![
        SetTo { input: inner, to: false },
        SetTo { input: outer, to: false },
    ]);
}

/// An event included on a true condition plays as the event alone; on a false one, not at all.
pub proof fn lemma_only_if<X, S: View>(x: X, before: S::V)
    where X: Simulatable<S>,
    ensures
        (OnlyIf { event: x, condition: true }).played(before) == x.played(before),
        (OnlyIf { event: x, condition: false }).played(before) == before,
{
}

/// Iterating over a vector plays the same as sequencing it, and as sequencing the tuple
/// of its three items.
pub proof fn lemma_iter_seq_matches_seq<X, S: View>(items: Vec<X>, before: S::V)
    where X: Simulatable<S>,
    requires
        items@.len() == 3,
    ensures
        (IterSequence { iter: items }).played(before) == Sequence(items).played(before),
        (IterSequence { iter: items }).played(before) == Sequence(
            (items@[0], items@[1], items@[2]),
        ).played(before),
{
    let s = items@;
    assert(s.drop_last().drop_last().drop_last() =~= Seq::<X>::empty());
    assert(s.drop_last().drop_last().last() == s[0]);
    assert(s.drop_last().last() == s[1]);
    assert(s.last() == s[2]);
    let one = s.drop_last().drop_last();
    assert(played_in_order::<X, S>(one.drop_last(), before) == before);
    let first = played_in_order::<X, S>(one, before);
    assert(first == s[0].played(before));
    let second = played_in_order::<X, S>(s.drop_last(), before);
    assert(second == s[1].played(first));
    assert(played_in_order::<X, S>(s, before) == s[2].played(second));
}

/// An empty sequence, of either kind, leaves every simulator as it was.
pub proof fn lemma_empty_sequence_is_identity<X, S: View>(items: Vec<X>, before: S::V)
    where X: Simulatable<S>,
    requires
        items@.len() == 0,
    ensures
        <Sequence<()> as Simulatable<S>>::played(Sequence(()), before) == before,
        Sequence(items).played(before) == before,
{
}

/// A freshly bound event is faithful: its simulator is in its state at binding.
pub proof fn lemma_bound_starts_faithful<E, S>(b: Bound<E, S>)
    where E: Simulatable<S> + Copy + 'static, S: View + 'static,
    requires
        b.count() == 0,
        b.start() == b.simulator()@,
    ensures
        b.faithful(),
{
}

/// A faithful bound event that was called once has left its simulator exactly where playing
/// the event directly, from the simulator's state at binding, would leave it.
pub proof fn lemma_bound_called_once_is_direct_playback<E, S>(b: Bound<E, S>)
    where E: Simulatable<S> + Copy + 'static, S: View + 'static,
    requires
        b.faithful(),
        b.plays() == 1,
    ensures
        b.simulator()@ == b.event().played(b.start()),
{
    assert(repeated::<E, S>(b.event(), 0, b.start()) == b.start());
}

} // verus!
