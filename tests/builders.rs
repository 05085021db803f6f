use std::time::Duration;

use kemuler::combinator::{During, OnlyIf, Repeat, Sequence};
use kemuler::input_event::{ChangeBy, SetTo};
use kemuler::prelude::{Char, Combine, Key, MouseButton, MousePosition, MouseScroll, Sleep};
use kemuler::simulators::event_log::EventLogger;
use kemuler::timing::{wait, IntoDuration};
use kemuler::utils::time::{micros, millis, nanos, secs};

#[test]
fn duration_helpers_count_their_units() {
    assert_eq!(secs(3), Duration::from_secs(3));
    assert_eq!(millis(1500), Duration::from_millis(1500));
    assert_eq!(micros(7), Duration::from_micros(7));
    assert_eq!(nanos(9), Duration::from_nanos(9));
    assert_eq!(millis(1500).as_nanos(), 1_500_000_000);
}

#[test]
fn whole_seconds_into_duration() {
    assert_eq!(5u64.into_duration(), Duration::from_secs(5));
    assert_eq!(Duration::from_millis(3).into_duration(), Duration::from_millis(3));
}

#[test]
fn wait_blocks_at_least_the_duration() {
    let start = std::time::Instant::now();
    let _ = wait(millis(20));
    assert!(start.elapsed() >= Duration::from_millis(20));
}

#[test]
fn mouse_builders_hold_their_arguments() {
    assert_eq!(MousePosition.move_to(10, -4), SetTo { input: MousePosition, to: (10, -4) });
    assert_eq!(MousePosition.move_by(-3, 8), ChangeBy { input: MousePosition, by: (-3, 8) });
    assert_eq!(MouseScroll.scroll_by(0, 2), ChangeBy { input: MouseScroll, by: (0, 2) });
}

#[test]
fn button_builders_set_state() {
    assert_eq!(Key::F2.set_to(true), Key::F2.down());
    assert_eq!(Key::F2.set_to(false), SetTo { input: Key::F2, to: false });
    assert_eq!(MouseButton::Left.set_to(true), SetTo { input: MouseButton::Left, to: true });
    assert_eq!(Char::from('w'), Char('w'));
    assert_eq!(Char('w').down(), SetTo { input: Char('w'), to: true });
    assert_eq!(Char('w').click(), Sequence((Char('w').down(), Char('w').up())));
}

#[test]
fn combine_builders_only_wrap() {
    let e = Key::Home.down();
    assert_eq!(e.repeat(4), Repeat { simulate: e, times: 4 });
    assert_eq!(e.only_if(false), OnlyIf { event: e, condition: false });
    assert_eq!(e.during(Key::Shift.down()), During { during: Key::Shift.down(), simulate: e });
    assert_eq!(e.and_then(Key::End.up()), Sequence((e, Key::End.up())));
    assert_eq!((e,).seq(), Sequence((e,)));
    assert_eq!(e.sleep(millis(5)), Sequence((e, Sleep(Duration::from_millis(5)))));
    assert_eq!(e.sleep_ms(5), Sequence((e, Sleep::new(Duration::from_millis(5)))));
}

#[test]
fn logger_starts_empty() {
    let log: EventLogger<SetTo<Key, bool>> = EventLogger::new();
    assert!(log.events().is_empty());
}
