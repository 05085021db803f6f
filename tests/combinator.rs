use std::fmt::Debug;
use std::time::{Duration, Instant};

use kemuler::input_event::{ChangeBy, SetTo};
use kemuler::prelude::{Char, Combine, Key, MouseButton, MousePosition, MouseScroll, Simulatable, Sleep};
use kemuler::simulator::Simulate;
use kemuler::View;

/// A simulator that realises nothing and writes down each event it is given.
struct S {
    data: Vec<String>,
}

impl S {
    fn new() -> S {
        S { data: Vec::new() }
    }

    fn push<T: Debug>(&mut self, t: &T) {
        self.data.push(format!("{:?}", t));
    }
}

impl View for S {
    type V = ();

    fn view(&self) {}
}

impl Simulate<SetTo<Key, bool>> for S {
    fn simulated(_: (), _: SetTo<Key, bool>) {}

    fn simulate(&mut self, event: SetTo<Key, bool>) {
        self.push(&event)
    }
}

impl Simulate<SetTo<MouseButton, bool>> for S {
    fn simulated(_: (), _: SetTo<MouseButton, bool>) {}

    fn simulate(&mut self, event: SetTo<MouseButton, bool>) {
        self.push(&event)
    }
}

impl Simulate<SetTo<Char, bool>> for S {
    fn simulated(_: (), _: SetTo<Char, bool>) {}

    fn simulate(&mut self, event: SetTo<Char, bool>) {
        self.push(&event)
    }
}

impl Simulate<SetTo<MousePosition, (i32, i32)>> for S {
    fn simulated(_: (), _: SetTo<MousePosition, (i32, i32)>) {}

    fn simulate(&mut self, event: SetTo<MousePosition, (i32, i32)>) {
        self.push(&event)
    }
}

impl Simulate<ChangeBy<MousePosition, (i32, i32)>> for S {
    fn simulated(_: (), _: ChangeBy<MousePosition, (i32, i32)>) {}

    fn simulate(&mut self, event: ChangeBy<MousePosition, (i32, i32)>) {
        self.push(&event)
    }
}

impl Simulate<ChangeBy<MouseScroll, (i32, i32)>> for S {
    fn simulated(_: (), _: ChangeBy<MouseScroll, (i32, i32)>) {}

    fn simulate(&mut self, event: ChangeBy<MouseScroll, (i32, i32)>) {
        self.push(&event)
    }
}

fn shown<T: Debug>(t: T) -> String {
    format!("{:?}", t)
}

#[test]
fn combinator_then() {
    let mut s = S::new();
    let x = Key::F1.down().and_then(Key::F2.down()).and_then(Key::F3.up());
    x.run_with(&mut s);
    assert_eq!(s.data[0], shown(Key::F1.down()));
    assert_eq!(s.data[1], shown(Key::F2.down()));
    assert_eq!(s.data[2], shown(Key::F3.up()));
    assert_eq!(s.data.len(), 3);
}

#[test]
fn combinator_sleep() {
    let mut s = S::new();
    let sleep_amount = Duration::from_millis(100);

    let previous = Instant::now();

    let x = Sleep(sleep_amount);
    x.run_with(&mut s);

    let now = Instant::now();

    let diff = now - previous;
    let max_acceptatble_deviation = Duration::from_millis(50);
    let deviated = diff - sleep_amount;
    assert!(
        deviated <= max_acceptatble_deviation,
        "diff is {} millis, deviated by {} millis",
        diff.as_millis(),
        deviated.as_millis(),
    );
    assert_eq!(s.data.len(), 0);
}

#[test]
fn combinator_repeat() {
    let mut s = S::new();
    let x = Key::Home.down().repeat(5);
    x.run_with(&mut s);
    for i in 0..5 {
        assert_eq!(s.data[i], shown(Key::Home.down()));
    }
    assert_eq!(s.data.len(), 5);
}

#[test]
fn combinator_repeat_complex() {
    let mut s = S::new();
    let x = Key::Home.down().repeat(3).and_then(Key::Tab.up()).repeat(2);
    x.run_with(&mut s);
    let expected = [
        Key::Home.down(),
        Key::Home.down(),
        Key::Home.down(),
        Key::Tab.up(),
        Key::Home.down(),
        Key::Home.down(),
        Key::Home.down(),
        Key::Tab.up(),
    ];
    for (i, e) in expected.iter().enumerate() {
        assert_eq!(s.data[i], shown(e));
    }
    assert_eq!(s.data.len(), 8);
}

#[test]
fn combinator_iter_seq() {
    let mut s = S::new();
    let x = [Key::F1, Key::F2, Key::F3, Key::F4, Key::F5]
        .iter()
        .map(|k| k.down())
        .collect::<Vec<_>>()
        .iter_seq();
    x.run_with(&mut s);
    let expected = [
        Key::F1.down(),
        Key::F2.down(),
        Key::F3.down(),
        Key::F4.down(),
        Key::F5.down(),
    ];
    for (i, e) in expected.iter().enumerate() {
        assert_eq!(s.data[i], shown(e));
    }
    assert_eq!(s.data.len(), 5);
}

#[test]
fn combinator_seq() {
    let mut s = S::new();
    let x = (
        Key::DownArrow.down(),
        MouseButton::Left.up(),
        MousePosition.move_to(25, 10),
    )
        .seq();
    x.run_with(&mut s);
    assert_eq!(s.data[0], shown(Key::DownArrow.down()));
    assert_eq!(s.data[1], shown(MouseButton::Left.up()));
    assert_eq!(s.data[2], shown(MousePosition.move_to(25, 10)));
    assert_eq!(s.data.len(), 3);
}

#[test]
fn combinator_seq_empty() {
    let mut s = S::new();
    let x = ().seq();
    x.run_with(&mut s);
    assert_eq!(s.data.len(), 0);
}

#[test]
fn combinator_during() {
    let mut s = S::new();
    let x = Key::Tab.click().during(Key::Alt.down());
    x.run_with(&mut s);
    assert_eq!(s.data[0], shown(Key::Alt.down()));
    assert_eq!(s.data[1], shown(Key::Tab.down()));
    assert_eq!(s.data[2], shown(Key::Tab.up()));
    assert_eq!(s.data[3], shown(Key::Alt.up()));
    assert_eq!(s.data.len(), 4);
}

#[test]
fn combinator_during_nested() {
    let mut s = S::new();
    let x = Key::Tab
        .click()
        .during(Key::Alt.down())
        .during(Key::F1.up());
    x.run_with(&mut s);
    assert_eq!(s.data[0], shown(Key::F1.up()));
    assert_eq!(s.data[1], shown(Key::Alt.down()));
    assert_eq!(s.data[2], shown(Key::Tab.down()));
    assert_eq!(s.data[3], shown(Key::Tab.up()));
    assert_eq!(s.data[4], shown(Key::Alt.up()));
    assert_eq!(s.data[5], shown(Key::F1.down()));
    assert_eq!(s.data.len(), 6);
}
