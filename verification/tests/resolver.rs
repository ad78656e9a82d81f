use jemclicks::actions::{resolve, ActionMap};
use jemclicks::events::{KeyEvent, Timestamp};
use jemclicks::keys::KeyStateTracker;

fn press(code: u16) -> KeyEvent {
    KeyEvent { code, pressed: true, time: Timestamp { sec: 0, usec: 0 } }
}

#[test]
fn resolve_no_keys_is_all_false() {
    let t = KeyStateTracker::new();
    let m = ActionMap::new_default();
    let i = resolve(&t, &m);
    assert!(!i.up && !i.down && !i.left && !i.right);
    assert!(!i.click_left && !i.click_middle && !i.click_right);
}

#[test]
fn resolve_each_direction() {
    let m = ActionMap::new_default();
    let mut t = KeyStateTracker::new();
    t.apply(&press(m.up_key));
    t.apply(&press(m.right_key));
    let i = resolve(&t, &m);
    assert!(i.up);
    assert!(!i.down);
    assert!(!i.left);
    assert!(i.right);
    assert!(!i.click_left && !i.click_middle && !i.click_right);
}

#[test]
fn resolve_clicks() {
    let m = ActionMap::new_default();
    let mut t = KeyStateTracker::new();
    t.apply(&press(m.click_left_key));
    t.apply(&press(m.click_middle_key));
    let i = resolve(&t, &m);
    assert!(i.click_left);
    assert!(i.click_middle);
    assert!(!i.click_right);
    assert!(!i.up && !i.down && !i.left && !i.right);
}

#[test]
fn resolve_opposing_directions_both_true() {
    // opposing directions are not cancelled here; they cancel downstream in
    // the net displacement
    let m = ActionMap::new_default();
    let mut t = KeyStateTracker::new();
    t.apply(&press(m.left_key));
    t.apply(&press(m.right_key));
    let i = resolve(&t, &m);
    assert!(i.left && i.right);
}

#[test]
fn resolve_is_pure() {
    let m = ActionMap::new_default();
    let mut t = KeyStateTracker::new();
    t.apply(&press(m.down_key));
    t.apply(&press(m.click_right_key));
    let first = resolve(&t, &m);
    let second = resolve(&t, &m);
    assert_eq!(first, second);
}

#[test]
fn resolve_ignores_unmapped_keys() {
    let m = ActionMap::new_default();
    let mut t = KeyStateTracker::new();
    t.apply(&press(65000));
    t.apply(&press(2));
    let i = resolve(&t, &m);
    assert!(!i.up && !i.down && !i.left && !i.right);
    assert!(!i.click_left && !i.click_middle && !i.click_right);
}

#[test]
fn default_map_codes() {
    let m = ActionMap::new_default();
    assert_eq!(m.up_key, 23);
    assert_eq!(m.left_key, 36);
    assert_eq!(m.down_key, 37);
    assert_eq!(m.right_key, 38);
    assert_eq!(m.click_left_key, 31);
    assert_eq!(m.click_middle_key, 32);
    assert_eq!(m.click_right_key, 33);
    assert_eq!(m.quit_key, 1);
    assert_eq!(m.enable_key, None);
    assert_eq!(m.disable_key, None);
    assert!(!m.disable_on_release);
}
