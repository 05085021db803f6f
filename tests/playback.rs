use std::time::{Duration, Instant};

use kemuler::combinator::Sequence;
use kemuler::input_event::{Invert, SetTo};
use kemuler::prelude::{Combine, Key, MouseButton, Simulatable, Sleep};
use kemuler::timing::wait;
use kemuler::simulatable::TrySimulatable;
use kemuler::simulatable_pack::{Bound, SimulatablePack, SimulatablePackInner};
use kemuler::simulator::Simulate;
use kemuler::simulators::event_log::EventLogger;
use kemuler::utils::time::millis;

type Log = EventLogger<SetTo<Key, bool>>;

#[test]
fn long_chain_keeps_order_and_records_no_wait() {
    let mut log: Log = EventLogger::new();
    Key::F1
        .down()
        .and_then(Key::F2.down())
        .sleep_ms(1)
        .and_then(Key::F2.up())
        .sleep(millis(1))
        .and_then(Key::F1.up())
        .run_with(&mut log);
    assert_eq!(
        log.events(),
        &[Key::F1.down(), Key::F2.down(), Key::F2.up(), Key::F1.up()]
    );
}

#[test]
fn vector_sequence_keeps_order() {
    let mut log: Log = EventLogger::new();
    let keys = vec![Key::Escape.down(), Key::Enter.up(), Key::Space.down(), Key::Tab.up()];
    keys.clone().seq().run_with(&mut log);
    assert_eq!(log.events(), keys.as_slice());
}

#[test]
fn repeat_writes_trace_times_over() {
    let mut log: Log = EventLogger::new();
    Key::Tab.click().repeat(3).run_with(&mut log);
    let expected = [
        Key::Tab.down(),
        Key::Tab.up(),
        Key::Tab.down(),
        Key::Tab.up(),
        Key::Tab.down(),
        Key::Tab.up(),
    ];
    assert_eq!(log.events(), &expected);
}

#[test]
fn repeat_zero_plays_nothing() {
    let mut log: Log = EventLogger::new();
    Key::Home.down().repeat(0).run_with(&mut log);
    assert!(log.events().is_empty());
}

#[test]
fn during_press_brackets_event() {
    let mut log: EventLogger<SetTo<MouseButton, bool>> = EventLogger::new();
    MouseButton::Left
        .click()
        .during(MouseButton::Right.down())
        .during(MouseButton::Middle.down())
        .run_with(&mut log);
    let expected = [
        MouseButton::Middle.down(),
        MouseButton::Right.down(),
        MouseButton::Left.down(),
        MouseButton::Left.up(),
        MouseButton::Right.up(),
        MouseButton::Middle.up(),
    ];
    assert_eq!(log.events(), &expected);
}

#[test]
fn only_if_true_plays_event() {
    let mut alone: Log = EventLogger::new();
    let mut guarded: Log = EventLogger::new();
    Key::PageUp.click().run_with(&mut alone);
    Key::PageUp.click().only_if(true).run_with(&mut guarded);
    assert_eq!(guarded.events(), alone.events());
    assert_eq!(guarded.events().len(), 2);
}

#[test]
fn only_if_false_plays_nothing() {
    let mut log: Log = EventLogger::new();
    Key::PageUp.click().only_if(false).run_with(&mut log);
    assert!(log.events().is_empty());
}

#[test]
fn iter_seq_matches_tuple_seq() {
    let mut by_iter: Log = EventLogger::new();
    let mut by_tuple: Log = EventLogger::new();
    let (a, b, c) = (Key::F10.down(), Key::F11.up(), Key::F12.down());
    vec![a, b, c].iter_seq().run_with(&mut by_iter);
    (a, b, c).seq().run_with(&mut by_tuple);
    assert_eq!(by_iter.events(), &[a, b, c]);
    assert_eq!(by_iter.events(), by_tuple.events());
}

#[test]
fn empty_sequences_play_nothing() {
    let mut log: Log = EventLogger::new();
    ().seq().run_with(&mut log);
    Vec::<SetTo<Key, bool>>::new().seq().run_with(&mut log);
    Vec::<SetTo<Key, bool>>::new().iter_seq().run_with(&mut log);
    assert!(log.events().is_empty());
}

#[test]
fn bound_event_plays_as_direct_playback() {
    let mut direct: Log = EventLogger::new();
    Key::Alt.click().during(Key::Shift.down()).run_with(&mut direct);

    let mut bound = Bound::new(Key::Alt.click().during(Key::Shift.down()), EventLogger::new());
    bound.call();
    let logged: Log = bound.into_simulator();
    assert_eq!(logged.events(), direct.events());
    assert_eq!(logged.events().len(), 4);
}

#[test]
fn bound_event_plays_once_per_call() {
    let mut bound = Bound::new(Key::Delete.down(), EventLogger::new());
    bound.call();
    bound.call();
    let logged: Log = bound.into_simulator();
    assert_eq!(logged.events(), &[Key::Delete.down(), Key::Delete.down()]);
}

#[test]
fn packs_of_different_types_play_together() {
    let keys: Bound<SetTo<Key, bool>, Log> = Bound::new(Key::End.down(), EventLogger::new());
    let buttons: Bound<SetTo<MouseButton, bool>, EventLogger<SetTo<MouseButton, bool>>> =
        Bound::new(MouseButton::Left.up(), EventLogger::new());
    let mut packs = vec![SimulatablePack::new(keys), SimulatablePack::new(buttons)];
    for pack in packs.iter_mut() {
        pack.call();
    }
    assert_eq!(packs.len(), 2);
}

#[test]
fn long_tuple_plays_in_position_order() {
    let mut log: Log = EventLogger::new();
    let k = Key::F1.down();
    let r = Key::F1.up();
    (
        k, r, k, r, k, r, k, r, k, r, k, r, k, r, k, r, k, r, k, r, k, r, k, r, k, r, k, r, k, r,
        Key::F2.down(), Key::F2.up(),
    )
        .seq()
        .run_with(&mut log);
    assert_eq!(log.events().len(), 32);
    assert_eq!(log.events()[0], k);
    assert_eq!(log.events()[29], r);
    assert_eq!(log.events()[30], Key::F2.down());
    assert_eq!(log.events()[31], Key::F2.up());
}

#[test]
fn invert_flips_press_and_release() {
    assert_eq!(Key::Alt.down().invert(), Key::Alt.up());
    assert_eq!(MouseButton::Right.up().invert(), MouseButton::Right.down());
}

#[test]
fn try_run_with_never_rejects() {
    let mut log: Log = EventLogger::new();
    let r = Key::CapsLock.down().try_run_with(&mut log);
    assert!(r.is_ok());
    assert_eq!(log.events(), &[Key::CapsLock.down()]);
}

#[test]
fn pair_forwards_to_both_simulators() {
    let mut pair: (Log, Log) = (EventLogger::new(), EventLogger::new());
    pair.simulate(Key::UpArrow.down());
    Key::LeftArrow.click().run_with(&mut pair);
    let expected = [Key::UpArrow.down(), Key::LeftArrow.down(), Key::LeftArrow.up()];
    assert_eq!(pair.0.events(), &expected);
    assert_eq!(pair.1.events(), &expected);
}

#[test]
fn sleep_ms_waits_at_least_its_duration() {
    let mut log: Log = EventLogger::new();
    let start = Instant::now();
    Key::F5.down().sleep_ms(30).run_with(&mut log);
    assert!(start.elapsed() >= Duration::from_millis(30));
    assert_eq!(log.events(), &[Key::F5.down()]);
}

#[test]
fn sleep_of_zero_returns() {
    let mut log: Log = EventLogger::new();
    Sleep::new(Duration::ZERO).run_with(&mut log);
    assert!(log.events().is_empty());
}

#[test]
fn click_is_press_then_release() {
    assert_eq!(Key::Space.click(), Sequence((Key::Space.down(), Key::Space.up())));
    assert_eq!(
        MouseButton::Middle.click(),
        Sequence((MouseButton::Middle.down(), MouseButton::Middle.up()))
    );
}

#[test]
fn sleep_from_duration_is_sleep_new() {
    let d = Duration::from_millis(12);
    assert_eq!(Sleep::from(d), Sleep::new(d));
    assert_eq!(Sleep::from(d).0, d);
}

#[test]
fn wait_reports_a_reading_past_the_duration() {
    let d = millis(15);
    let reading = wait(d);
    assert!(reading.is_some());
    assert!(reading.unwrap() >= d);
    assert!(wait(Duration::ZERO).is_some());
}
