//! Decisions of the keyboard side: the force-quit combination, the Caps-Lock
//! passthrough, and the key repeat.
use vstd::prelude::*;
use crate::codes::{InputEvent, key_tap, tap_events, KEY_CAPSLOCK, KEY_F5, KEY_F7, KEY_F8};

verus! {

/// Whether `code` is one of the keys of the force-quit combination F5+F7+F8.
pub open spec fn is_quit_key(code: u16) -> bool {
    code == KEY_F5 || code == KEY_F7 || code == KEY_F8
}

/// How a key event changes the number of held quit keys: a press adds one, a
/// release takes one away, an auto-repeat changes nothing.
pub open spec fn combo_delta(value: i32) -> int {
    if value == 0 {
        -1
    } else if value == 1 {
        1
    } else {
        0
    }
}

/// The number of held quit keys after `ev`; it never drops below zero.
pub open spec fn next_combo(combo: int, ev: InputEvent) -> int {
    if is_quit_key(ev.code) {
        let c = combo + combo_delta(ev.value);
        if c < 0 {
            0
        } else {
            c
        }
    } else {
        combo
    }
}

/// What the keyboard worker does with one event.
pub struct KeyboardStep {
    /// The new number of held quit keys.
    pub combo: i32,
    /// Whether all three quit keys are held: the keyboard worker panics
    /// ("FORCE QUIT") and the event goes nowhere.
    pub force_quit: bool,
    /// The Caps-Lock value to hand to the passthrough worker, if any.
    pub capslock: Option<i32>,
}

/// Handles one keyboard event, given the number of quit keys held before it.
/// Unless the program is to quit, the event itself is passed on to the
/// virtual device after this step.
pub fn keyboard_step(combo: i32, ev: InputEvent) -> (r: KeyboardStep)
    requires
        0 <= combo < 3,
    ensures
        r.combo == next_combo(combo as int, ev),
        !(ev.code == KEY_F5 || ev.code == KEY_F7 || ev.code == KEY_F8) ==> r.combo == combo,
        r.force_quit == (r.combo == 3),
        r.capslock == (if !r.force_quit && ev.code == KEY_CAPSLOCK {
            Some(ev.value)
        } else {
            None
        }),
{
    let mut c = combo;
    if ev.code == KEY_F5 || ev.code == KEY_F7 || ev.code == KEY_F8 {
        let delta: i32 = if ev.value == 0 {
            -1
        } else if ev.value == 1 {
            1
        } else {
            0
        };
        c = c + delta;
        if c < 0 {
            c = 0;
        }
        if c == 3 {
            return KeyboardStep { combo: c, force_quit: true, capslock: None };
        }
    }
    let capslock = if ev.code == KEY_CAPSLOCK {
        Some(ev.value)
    } else {
        None
    };
    KeyboardStep { combo: c, force_quit: false, capslock }
}

/// The number of held quit keys stays between 0 and 3.
pub proof fn law_combo_in_range(combo: int, ev: InputEvent)
    requires
        0 <= combo < 3,
    ensures
        0 <= next_combo(combo, ev) <= 3,
{
}

/// The program only quits on the press of a quit key while the two other
/// quit keys are held.
pub proof fn law_quit_only_on_third_press(combo: int, ev: InputEvent)
    requires
        0 <= combo < 3,
        next_combo(combo, ev) == 3,
    ensures
        is_quit_key(ev.code),
        ev.value == 1,
        combo == 2,
{
}

/// Only F5, F7 and F8 move the count of held quit keys: any other key, in
/// any state, leaves it as it was; and a quit key moves it by at most one.
pub proof fn law_only_quit_keys_count(combo: int, ev: InputEvent)
    requires
        0 <= combo < 3,
    ensures
        !(ev.code == KEY_F5 || ev.code == KEY_F7 || ev.code == KEY_F8) ==> next_combo(combo, ev)
            == combo,
        combo - 1 <= next_combo(combo, ev) <= combo + 1,
        ev.value == 1 && (ev.code == KEY_F5 || ev.code == KEY_F7 || ev.code == KEY_F8) ==> next_combo(
            combo,
            ev,
        ) == combo + 1,
        ev.value == 0 && (ev.code == KEY_F5 || ev.code == KEY_F7 || ev.code == KEY_F8) ==> next_combo(
            combo,
            ev,
        ) == (if combo == 0 {
            0
        } else {
            combo - 1
        }),
{
}

/// Pressing F5, F7 and F8 one after the other, from no quit key held, makes
/// the program quit at the third press and not before.
pub proof fn law_f5_f7_f8_quits(e1: InputEvent, e2: InputEvent, e3: InputEvent)
    requires
        e1.code == KEY_F5 && e1.value == 1,
        e2.code == KEY_F7 && e2.value == 1,
        e3.code == KEY_F8 && e3.value == 1,
    ensures
        next_combo(0, e1) == 1,
        next_combo(1, e2) == 2,
        next_combo(2, e3) == 3,
{
}

/// What the passthrough worker does with one Caps-Lock value.
pub struct CapsStep {
    /// Whether the mouse is passed through unchanged afterwards.
    pub passthrough: bool,
    /// Events to send to the virtual device.
    pub events: Vec<InputEvent>,
}

/// Handles one Caps-Lock value: holding the key (its auto-repeat, value 2)
/// turns the passthrough on; any other value turns it off, and if it was on,
/// sends one more Caps-Lock tap.
pub fn capslock_step(value: i32, passthrough: bool) -> (r: CapsStep)
    ensures
        r.passthrough == (value == 2),
        r.events@ == (if value != 2 && passthrough {
            key_tap(KEY_CAPSLOCK)
        } else {
            Seq::<InputEvent>::empty()
        }),
{
    if value == 2 {
        CapsStep { passthrough: true, events: Vec::new() }
    } else if passthrough {
        CapsStep { passthrough: false, events: tap_events(KEY_CAPSLOCK) }
    } else {
        CapsStep { passthrough: false, events: Vec::new() }
    }
}

/// One tick of the key-repeat worker for `key`: if repeating was told to stop
/// or the passthrough is on, it finishes (and clears the stop request);
/// otherwise it sends one more tap of `key`.
pub fn repeat_tick(stop: bool, passthrough: bool, key: u16) -> (r: Option<Vec<InputEvent>>)
    ensures
        r is None <==> (stop || passthrough),
        r matches Some(evs) ==> evs@ == key_tap(key),
{
    if stop || passthrough {
        None
    } else {
        Some(tap_events(key))
    }
}

} // verus!
