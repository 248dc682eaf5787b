use mousekey::arrows::{mouse_arrows, three_quarters_of, MouseArrow, RepeatCommand};
use mousekey::codes::{
    InputEvent, BTN_LEFT, EV_KEY, EV_REL, EV_SYN, KEY_DOWN, KEY_LEFT, KEY_RIGHT, KEY_UP,
    KEY_10CHANNELSDOWN, REL_X, REL_Y,
};

fn tap(key: u16) -> Vec<InputEvent> {
    vec![InputEvent::new(EV_KEY, key, 1), InputEvent::new(EV_KEY, key, 0)]
}

fn mv(code: u16, value: i32) -> InputEvent {
    InputEvent::new(EV_REL, code, value)
}

#[test]
fn three_quarters_matches_float_computation() {
    let samples = [0, 1, 2, 3, 4, 40, 41, 45, 99, -1, -2, -41, -40, 1000, 12345, -12345,
        i32::MAX, i32::MAX - 1, i32::MIN, i32::MIN + 1, 1 << 30, -(1 << 30)];
    for m in samples {
        assert_eq!(three_quarters_of(m), (m as f64 * 0.75) as i32, "m = {}", m);
    }
    assert_eq!(three_quarters_of(40), 30);
    assert_eq!(three_quarters_of(41), 30);
    assert_eq!(three_quarters_of(-41), -30);
}

#[test]
fn mouse_arrows_first_event_taps_key() {
    assert_eq!(mouse_arrows(false, true, 0, 45), (tap(KEY_RIGHT), 1, KEY_10CHANNELSDOWN));
    assert_eq!(mouse_arrows(false, false, 0, 45), (tap(KEY_LEFT), 1, KEY_10CHANNELSDOWN));
    assert_eq!(mouse_arrows(true, true, 0, 45), (tap(KEY_DOWN), 1, KEY_10CHANNELSDOWN));
    assert_eq!(mouse_arrows(true, false, 0, 45), (tap(KEY_UP), 1, KEY_10CHANNELSDOWN));
}

#[test]
fn mouse_arrows_counts_then_repeats_once() {
    assert_eq!(mouse_arrows(false, true, 45, 45), (vec![], 46, KEY_10CHANNELSDOWN));
    assert_eq!(mouse_arrows(false, true, 46, 45), (vec![], 1001, KEY_RIGHT));
    assert_eq!(mouse_arrows(false, true, 1001, 45), (vec![], 1002, KEY_10CHANNELSDOWN));
    // A negative hold time repeats on the very first event.
    assert_eq!(mouse_arrows(true, false, 0, -1), (tap(KEY_UP), 1001, KEY_UP));
}

#[test]
fn push_right_taps_once_then_repeats() {
    let mut s = MouseArrow::new(40, 45);
    let out = s.handle_event(false, mv(REL_X, 50));
    assert_eq!(out.events, tap(KEY_RIGHT));
    assert_eq!(out.repeat, RepeatCommand::Keep);
    assert_eq!(s.x, 40);
    assert_eq!(s.x_lim_time, 1);
    for n in 2..=46 {
        let out = s.handle_event(false, mv(REL_X, 5));
        assert!(out.events.is_empty());
        assert_eq!(out.repeat, RepeatCommand::Keep, "push {}", n);
        assert_eq!(s.x_lim_time, n);
    }
    let out = s.handle_event(false, mv(REL_X, 5));
    assert!(out.events.is_empty());
    assert_eq!(out.repeat, RepeatCommand::Start(KEY_RIGHT));
    assert_eq!(s.x_lim_time, 1001);
    let out = s.handle_event(false, mv(REL_X, 5));
    assert_eq!(out.repeat, RepeatCommand::Keep);
    assert_eq!(s.x_lim_time, 1002);
}

#[test]
fn moving_back_stops_repeat() {
    let mut s = MouseArrow { x: 40, y: 0, x_lim_time: 1001, y_lim_time: 0, move_limit: 40, hold_time: 45 };
    let out = s.handle_event(false, mv(REL_X, -3));
    assert!(out.events.is_empty());
    assert_eq!(out.repeat, RepeatCommand::Stop);
    assert_eq!(s.x, 37);
    assert_eq!(s.x_lim_time, 0);
    // Below the hold time nothing is stopped.
    let mut s = MouseArrow { x: 40, y: 0, x_lim_time: 3, y_lim_time: 0, move_limit: 40, hold_time: 45 };
    let out = s.handle_event(false, mv(REL_X, -3));
    assert_eq!(out.repeat, RepeatCommand::Keep);
}

#[test]
fn large_move_back_stops_repeat_and_taps_other_way() {
    let mut s = MouseArrow { x: 40, y: 0, x_lim_time: 1001, y_lim_time: 0, move_limit: 40, hold_time: 45 };
    let out = s.handle_event(false, mv(REL_X, -80));
    assert_eq!(out.events, tap(KEY_LEFT));
    assert_eq!(out.repeat, RepeatCommand::Stop);
    assert_eq!(s.x, -40);
    assert_eq!(s.x_lim_time, 1);
    // A count below the hold time leaves the repeat alone.
    let mut s = MouseArrow { x: 40, y: 0, x_lim_time: 5, y_lim_time: 0, move_limit: 40, hold_time: 45 };
    let out = s.handle_event(false, mv(REL_X, -100));
    assert_eq!(out.events, tap(KEY_LEFT));
    assert_eq!(out.repeat, RepeatCommand::Keep);
    // A negative hold time starts repeating the new key at once.
    let mut s = MouseArrow { x: 40, y: 0, x_lim_time: 1001, y_lim_time: 0, move_limit: 40, hold_time: -1 };
    let out = s.handle_event(false, mv(REL_X, -80));
    assert_eq!(out.repeat, RepeatCommand::Start(KEY_LEFT));
    assert_eq!(s.x_lim_time, 1001);
}

#[test]
fn crossing_from_below_the_limit_is_an_ordinary_push() {
    // Not standing at the limit: the count (0) is used as it is.
    let mut s = MouseArrow { x: 10, y: 0, x_lim_time: 0, y_lim_time: 0, move_limit: 40, hold_time: 0 };
    let out = s.handle_event(false, mv(REL_X, -60));
    assert_eq!(out.events, tap(KEY_LEFT));
    assert_eq!(out.repeat, RepeatCommand::Keep);
    assert_eq!(s.x, -40);
    assert_eq!(s.x_lim_time, 1);
}

#[test]
fn non_positive_limit_never_turns_back() {
    let mut s = MouseArrow::new(-5, 45);
    let out = s.handle_event(false, mv(REL_X, 3));
    assert_eq!(out.events, tap(KEY_RIGHT));
    assert_eq!(s.x, -5);
    assert_eq!(s.x_lim_time, 1);
    let out = s.handle_event(false, mv(REL_X, -3));
    assert!(out.events.is_empty());
    assert_eq!(out.repeat, RepeatCommand::Keep);
    assert_eq!(s.x, 5);
    assert_eq!(s.x_lim_time, 2);
}

#[test]
fn hold_time_minus_one_repeats_at_first_reach() {
    let mut s = MouseArrow::new(40, -1);
    let out = s.handle_event(false, mv(REL_X, 20));
    assert_eq!(out.repeat, RepeatCommand::Stop);
    let out = s.handle_event(false, mv(REL_X, 20));
    assert_eq!(out.events, tap(KEY_RIGHT));
    assert_eq!(out.repeat, RepeatCommand::Start(KEY_RIGHT));
    let out = s.handle_event(false, mv(REL_X, 20));
    assert!(out.events.is_empty());
    assert_eq!(out.repeat, RepeatCommand::Keep);
}

#[test]
fn small_steps_tap_once_then_repeat() {
    // Steps of 3 reach the limit of 40 at the 14th event (index 13).
    let mut s = MouseArrow::new(40, 2);
    let mut taps = Vec::new();
    let mut starts = Vec::new();
    for i in 0..30 {
        let out = s.handle_event(false, mv(REL_Y, -3));
        if !out.events.is_empty() {
            assert_eq!(out.events, tap(KEY_UP));
            taps.push(i);
        }
        if let RepeatCommand::Start(k) = out.repeat {
            assert_eq!(k, KEY_UP);
            starts.push(i);
        } else {
            assert_eq!(out.repeat, RepeatCommand::Keep);
        }
    }
    assert_eq!(taps, vec![13]);
    assert_eq!(starts, vec![13 + 2 + 1]);
    assert_eq!(s.y, -40);
}

#[test]
fn chained_mouse_arrows_tap_once_and_start_once() {
    let mut t = 0;
    for i in 0..60 {
        let (events, t1, rep) = mouse_arrows(false, true, t, 45);
        if i == 0 {
            assert_eq!(events, tap(KEY_RIGHT));
        } else {
            assert!(events.is_empty());
        }
        assert_eq!(rep, if i == 46 { KEY_RIGHT } else { KEY_10CHANNELSDOWN });
        t = t1;
    }
    assert_eq!(t, 1000 + 60 - 45 - 1);
}

#[test]
fn up_and_down_use_vertical_axis() {
    let mut s = MouseArrow::new(40, 45);
    let out = s.handle_event(false, mv(REL_Y, -40));
    assert_eq!(out.events, tap(KEY_UP));
    assert_eq!(s.y, -40);
    let mut s = MouseArrow::new(40, 45);
    let out = s.handle_event(false, mv(REL_Y, 41));
    assert_eq!(out.events, tap(KEY_DOWN));
    assert_eq!(s.y, 40);
}

#[test]
fn crossing_three_quarters_clears_other_axis() {
    let mut s = MouseArrow { x: 0, y: 20, x_lim_time: 0, y_lim_time: 7, move_limit: 40, hold_time: 45 };
    let out = s.handle_event(false, mv(REL_X, 30));
    assert!(out.events.is_empty());
    assert_eq!(s.y, 20);
    assert_eq!(s.x, 30);
    let out = s.handle_event(false, mv(REL_X, 1));
    assert!(out.events.is_empty());
    assert_eq!(s.y, 0);
    assert_eq!(s.y_lim_time, 7);
    assert_eq!(s.x, 31);
}

#[test]
fn passthrough_forwards_and_resets() {
    let mut s = MouseArrow { x: 40, y: 3, x_lim_time: 9, y_lim_time: 2, move_limit: 40, hold_time: 45 };
    let ev = mv(REL_X, 50);
    let out = s.handle_event(true, ev);
    assert_eq!(out.events, vec![ev]);
    assert_eq!(out.repeat, RepeatCommand::Stop);
    assert_eq!(s, MouseArrow::new(40, 45));
}

#[test]
fn buttons_are_forwarded_and_reset_state() {
    let mut s = MouseArrow { x: 40, y: 3, x_lim_time: 9, y_lim_time: 2, move_limit: 40, hold_time: 45 };
    let ev = InputEvent::new(EV_KEY, BTN_LEFT, 1);
    let out = s.handle_event(false, ev);
    assert_eq!(out.events, vec![ev]);
    assert_eq!(out.repeat, RepeatCommand::Stop);
    assert_eq!(s, MouseArrow::new(40, 45));
}

#[test]
fn wheel_is_forwarded_unchanged() {
    let mut s = MouseArrow { x: 10, y: 3, x_lim_time: 0, y_lim_time: 0, move_limit: 40, hold_time: 45 };
    let before = s;
    let ev = mv(8, -1);
    let out = s.handle_event(false, ev);
    assert_eq!(out.events, vec![ev]);
    assert_eq!(out.repeat, RepeatCommand::Keep);
    assert_eq!(s, before);
}

#[test]
fn zero_value_and_sync_are_ignored() {
    let mut s = MouseArrow { x: 10, y: 3, x_lim_time: 0, y_lim_time: 0, move_limit: 40, hold_time: 45 };
    let before = s;
    let out = s.handle_event(false, InputEvent::new(EV_SYN, 0, 0));
    assert!(out.events.is_empty());
    assert_eq!(out.repeat, RepeatCommand::Keep);
    let out = s.handle_event(false, mv(REL_X, 0));
    assert!(out.events.is_empty());
    assert_eq!(s, before);
}

#[test]
fn can_handle_rejects_overflow() {
    let s = MouseArrow { x: 40, y: 0, x_lim_time: 0, y_lim_time: 0, move_limit: 40, hold_time: 45 };
    assert!(s.can_handle(false, mv(REL_X, 5)));
    assert!(!s.can_handle(false, mv(REL_X, i32::MAX)));
    assert!(s.can_handle(true, mv(REL_X, i32::MAX)));
    let s = MouseArrow { x: 40, y: 0, x_lim_time: i32::MAX, y_lim_time: 0, move_limit: 40, hold_time: 45 };
    assert!(!s.can_handle(false, mv(REL_X, 5)));
    assert!(s.can_handle(false, mv(REL_X, -5)));
}
