use mousekey::codes::{InputEvent, EV_KEY, KEY_CAPSLOCK, KEY_F5, KEY_F7, KEY_F8};
use mousekey::keyboard::{capslock_step, keyboard_step, repeat_tick};

fn key(code: u16, value: i32) -> InputEvent {
    InputEvent::new(EV_KEY, code, value)
}

fn tap(code: u16) -> Vec<InputEvent> {
    vec![key(code, 1), key(code, 0)]
}

#[test]
fn f5_f7_f8_force_quit() {
    let r = keyboard_step(0, key(KEY_F5, 1));
    assert_eq!((r.combo, r.force_quit), (1, false));
    let r = keyboard_step(r.combo, key(KEY_F7, 1));
    assert_eq!((r.combo, r.force_quit), (2, false));
    let r = keyboard_step(r.combo, key(KEY_F8, 1));
    assert_eq!((r.combo, r.force_quit), (3, true));
    assert_eq!(r.capslock, None);
}

#[test]
fn releases_and_repeats_of_quit_keys() {
    let r = keyboard_step(2, key(KEY_F7, 0));
    assert_eq!((r.combo, r.force_quit), (1, false));
    let r = keyboard_step(0, key(KEY_F5, 0));
    assert_eq!(r.combo, 0);
    let r = keyboard_step(2, key(KEY_F8, 2));
    assert_eq!((r.combo, r.force_quit), (2, false));
    let r = keyboard_step(2, key(30, 1));
    assert_eq!((r.combo, r.force_quit), (2, false));
}

#[test]
fn capslock_value_is_handed_on() {
    let r = keyboard_step(0, key(KEY_CAPSLOCK, 2));
    assert_eq!(r.capslock, Some(2));
    let r = keyboard_step(1, key(30, 1));
    assert_eq!(r.capslock, None);
}

#[test]
fn holding_capslock_passes_mouse_through() {
    let r = capslock_step(1, false);
    assert!(!r.passthrough);
    assert!(r.events.is_empty());
    let r = capslock_step(2, r.passthrough);
    assert!(r.passthrough);
    assert!(r.events.is_empty());
    let r = capslock_step(2, r.passthrough);
    assert!(r.passthrough);
    let r = capslock_step(0, r.passthrough);
    assert!(!r.passthrough);
    assert_eq!(r.events, tap(KEY_CAPSLOCK));
}

#[test]
fn repeat_tick_taps_until_stopped() {
    assert_eq!(repeat_tick(false, false, 106), Some(tap(106)));
    assert_eq!(repeat_tick(true, false, 106), None);
    assert_eq!(repeat_tick(false, true, 106), None);
}
