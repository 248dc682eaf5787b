//! The Linux input event codes that the logic uses, and the events it reads
//! and writes.
use vstd::prelude::*;

verus! {

/// Event type of synchronisation markers (`EV_SYN`).
pub const EV_SYN: u16 = 0;

/// Event type of key and button events (`EV_KEY`).
pub const EV_KEY: u16 = 1;

/// Event type of relative axis movement (`EV_REL`).
pub const EV_REL: u16 = 2;

/// Relative axis: horizontal movement (`REL_X`).
pub const REL_X: u16 = 0;

/// Relative axis: vertical movement (`REL_Y`).
pub const REL_Y: u16 = 1;

/// Relative axis `REL_MISC`, used as "no axis required".
pub const REL_MISC: u16 = 9;

/// Number of relative axis codes (`REL_CNT`).
pub const REL_COUNT: u16 = 16;

/// Number of key codes (`KEY_CNT`).
pub const KEY_COUNT: u16 = 768;

/// Caps Lock, held to pass the mouse through unchanged.
pub const KEY_CAPSLOCK: u16 = 58;

/// F5, part of the force-quit combination.
pub const KEY_F5: u16 = 63;

/// F7, part of the force-quit combination.
pub const KEY_F7: u16 = 65;

/// F8, part of the force-quit combination.
pub const KEY_F8: u16 = 66;

/// Arrow up.
pub const KEY_UP: u16 = 103;

/// Arrow left.
pub const KEY_LEFT: u16 = 105;

/// Arrow right.
pub const KEY_RIGHT: u16 = 106;

/// Arrow down.
pub const KEY_DOWN: u16 = 108;

/// The left mouse button, which every mouse is asked to have.
pub const BTN_LEFT: u16 = 272;

/// Key code used internally to mean "stop repeating" (`KEY_10CHANNELSUP`).
pub const KEY_10CHANNELSUP: u16 = 440;

/// Key code used internally to mean "leave repeating as it is" (`KEY_10CHANNELSDOWN`).
pub const KEY_10CHANNELSDOWN: u16 = 441;

/// One input event as the logic sees it: its type, its code and its value.
#[derive(Clone, Copy, PartialEq, Eq, Structural, Debug)]
pub struct InputEvent {
    pub event_type: u16,
    pub code: u16,
    pub value: i32,
}

impl InputEvent {
    pub fn new(event_type: u16, code: u16, value: i32) -> (ev: InputEvent)
        ensures
            ev == (InputEvent { event_type, code, value }),
    {
        InputEvent { event_type, code, value }
    }
}

/// A key event: key `code` with `value` 1 for press and 0 for release.
pub open spec fn key_event(code: u16, value: i32) -> InputEvent {
    InputEvent { event_type: EV_KEY, code, value }
}

/// A press of `key` followed by its release.
pub open spec fn key_tap(key: u16) -> Seq<InputEvent> {
    seq![key_event(key, 1), key_event(key, 0)]
}

/// Builds the press and the release of `key`.
pub fn tap_events(key: u16) -> (evs: Vec<InputEvent>)
    ensures
        evs@ == key_tap(key),
{
    let mut evs: Vec<InputEvent> = Vec::new();
    evs.push(InputEvent::new(EV_KEY, key, 1));
    evs.push(InputEvent::new(EV_KEY, key, 0));
    evs
}

} // verus!
