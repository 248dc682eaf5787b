use mousekey::capabilities::merged_capabilities;
use mousekey::codes::{InputEvent, BTN_LEFT, EV_KEY, EV_REL, EV_SYN, KEY_F5, KEY_F7, KEY_F8, REL_MISC, REL_X, REL_Y};
use mousekey::device::{compatible_devices, is_compatible, Confirmation, DeviceCaps};
use mousekey::error::MouseKeyError;

fn mouse() -> DeviceCaps {
    DeviceCaps { event_types: vec![EV_SYN, EV_KEY, EV_REL], rel_axes: Some(vec![REL_X, REL_Y, 8]), keys: Some(vec![BTN_LEFT, 273]) }
}

fn keyboard() -> DeviceCaps {
    DeviceCaps { event_types: vec![EV_SYN, EV_KEY], rel_axes: None, keys: Some(vec![1, 2, KEY_F5, KEY_F7, KEY_F8]) }
}

#[test]
fn mouse_filter() {
    assert!(is_compatible(&mouse(), EV_REL, REL_X, &vec![BTN_LEFT]));
    assert!(!is_compatible(&keyboard(), EV_REL, REL_X, &vec![BTN_LEFT]));
    let no_keys = DeviceCaps { event_types: vec![EV_REL], rel_axes: Some(vec![REL_X]), keys: None };
    assert!(!is_compatible(&no_keys, EV_REL, REL_X, &vec![]));
}

#[test]
fn keyboard_filter() {
    let f = vec![KEY_F5, KEY_F7, KEY_F8];
    assert!(is_compatible(&keyboard(), EV_KEY, REL_MISC, &f));
    assert!(!is_compatible(&mouse(), EV_KEY, REL_MISC, &f));
}

#[test]
fn compatible_devices_in_order() {
    let devs = vec![keyboard(), mouse(), keyboard()];
    assert_eq!(compatible_devices(&devs, EV_KEY, REL_MISC, &vec![KEY_F5, KEY_F7, KEY_F8]), Ok(vec![0, 2]));
    assert_eq!(compatible_devices(&devs, EV_REL, REL_X, &vec![BTN_LEFT]), Ok(vec![1]));
}

#[test]
fn no_compatible_device_is_an_error() {
    let devs = vec![keyboard()];
    assert_eq!(compatible_devices(&devs, EV_REL, REL_X, &vec![BTN_LEFT]), Err(MouseKeyError::NoDeviceError));
    assert_eq!(compatible_devices(&vec![], EV_KEY, REL_MISC, &vec![]), Err(MouseKeyError::NoDeviceError));
}

#[test]
fn keyboard_confirmed_after_all_three_keys() {
    let mut c = Confirmation::new(REL_MISC, &vec![KEY_F5, KEY_F7, KEY_F8]);
    assert_eq!((c.seen, c.needed), (1, 4));
    assert!(!c.observe(InputEvent::new(EV_KEY, KEY_F7, 1)));
    assert!(!c.observe(InputEvent::new(EV_KEY, KEY_F7, 0)));
    assert!(!c.observe(InputEvent::new(EV_KEY, 30, 1)));
    assert!(!c.observe(InputEvent::new(EV_KEY, KEY_F5, 0)));
    assert_eq!(c.pending_keys, vec![KEY_F8]);
    assert!(c.observe(InputEvent::new(EV_KEY, KEY_F8, 1)));
}

#[test]
fn mouse_confirmed_after_move_and_click() {
    let mut c = Confirmation::new(REL_X, &vec![BTN_LEFT]);
    assert_eq!((c.seen, c.needed), (0, 2));
    assert!(!c.observe(InputEvent::new(EV_REL, REL_Y, 3)));
    assert!(!c.observe(InputEvent::new(EV_KEY, BTN_LEFT, 1)));
    assert!(c.observe(InputEvent::new(EV_REL, REL_X, -1)));
    assert_eq!(c.pending_rel, REL_MISC);
}

#[test]
fn nothing_required_is_confirmed_at_once() {
    let mut c = Confirmation::new(REL_MISC, &vec![]);
    assert!(c.observe(InputEvent::new(EV_SYN, 0, 0)));
}

#[test]
fn merged_device_has_all_keys_and_mouse_axes() {
    let (keys, axes) = merged_capabilities(&vec![30, 31, KEY_F5], &vec![BTN_LEFT, 30], &vec![REL_X, REL_Y, 8]);
    let k: Vec<u16> = keys.codes();
    assert_eq!(k, vec![30, 31, KEY_F5, BTN_LEFT]);
    let a: Vec<u16> = axes.codes();
    assert_eq!(a, vec![REL_X, REL_Y, 8]);
}
