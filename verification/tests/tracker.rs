use jemclicks::events::{KeyEvent, Timestamp};
use jemclicks::keys::KeyStateTracker;

fn at(sec: i64) -> Timestamp {
    Timestamp { sec, usec: 0 }
}

fn press(code: u16) -> KeyEvent {
    KeyEvent { code, pressed: true, time: at(0) }
}

fn release(code: u16) -> KeyEvent {
    KeyEvent { code, pressed: false, time: at(0) }
}

#[test]
fn tracker_starts_empty() {
    let t = KeyStateTracker::new();
    assert!(!t.is_held(0));
    assert!(!t.is_held(23));
    assert_eq!(t.snapshot(), Vec::<u16>::new());
}

#[test]
fn tracker_press_then_release() {
    let mut t = KeyStateTracker::new();
    t.apply(&press(23));
    assert!(t.is_held(23));
    t.apply(&release(23));
    assert!(!t.is_held(23));
}

#[test]
fn tracker_duplicate_press_is_noop() {
    let mut t = KeyStateTracker::new();
    t.apply(&press(23));
    t.apply(&press(23));
    t.apply(&press(23));
    assert!(t.is_held(23));
    assert_eq!(t.snapshot().len(), 1);
    // one release undoes any number of presses of the same key
    t.apply(&release(23));
    assert!(!t.is_held(23));
}

#[test]
fn tracker_release_of_unheld_is_noop() {
    let mut t = KeyStateTracker::new();
    t.apply(&release(36));
    assert!(!t.is_held(36));
    assert_eq!(t.snapshot().len(), 0);
    t.apply(&press(23));
    t.apply(&release(36));
    assert!(t.is_held(23));
    assert_eq!(t.snapshot().len(), 1);
}

#[test]
fn tracker_replay_keeps_last_event_per_code() {
    // last event per code: 23 press, 36 release, 37 press, 38 release
    let events = vec![
        press(23),
        press(36),
        press(37),
        release(36),
        press(38),
        press(23),
        release(38),
    ];
    let mut t = KeyStateTracker::new();
    for e in &events {
        t.apply(e);
    }
    assert!(t.is_held(23));
    assert!(!t.is_held(36));
    assert!(t.is_held(37));
    assert!(!t.is_held(38));
    assert_eq!(t.snapshot().len(), 2);
}

#[test]
fn tracker_unmapped_codes_are_tracked_too() {
    // malformed or unrecognized codes are accepted; they are simply never
    // matched by the resolver
    let mut t = KeyStateTracker::new();
    t.apply(&press(65000));
    assert!(t.is_held(65000));
}
