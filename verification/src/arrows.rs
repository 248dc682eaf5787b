use vstd::prelude::*;
use crate::codes::{
    InputEvent, key_tap, tap_events, EV_REL, EV_SYN, REL_X, REL_Y, KEY_UP, KEY_DOWN, KEY_LEFT,
    KEY_RIGHT, KEY_10CHANNELSUP, KEY_10CHANNELSDOWN,
};

verus! {

/// Where the mouse is on its way to the next arrow key.
///
/// `x` and `y` hold the movement collected on each axis (clamped to
/// `move_limit`); `x_lim_time` and `y_lim_time` count the movement events that
/// arrived while that axis stood at its limit.
#[derive(Clone, Copy, PartialEq, Eq, Structural, Debug)]
pub struct MouseArrow {
    pub x: i32,
    pub y: i32,
    pub x_lim_time: i32,
    pub y_lim_time: i32,
    pub move_limit: i32,
    pub hold_time: i32,
}

/// What the key-repeat worker is told after an event.
#[derive(Clone, Copy, PartialEq, Eq, Structural, Debug)]
pub enum RepeatCommand {
    /// Leave the repeat as it is.
    Keep,
    /// Stop repeating.
    Stop,
    /// Start repeating the given key.
    Start(u16),
}

/// What handling one mouse event produces: the events to send to the virtual
/// device, in order, and the command for the key-repeat worker.
pub struct MouseOutput {
    pub events: Vec<InputEvent>,
    pub repeat: RepeatCommand,
}

pub open spec fn abs(v: int) -> int {
    if v < 0 {
        -v
    } else {
        v
    }
}

/// Three quarters of `m`, truncated toward zero: what
/// `(m as f64 * 0.75) as i32` computes for every `i32` value `m`.
pub open spec fn three_quarters(m: int) -> int {
    if m >= 0 {
        (3 * m) / 4
    } else {
        -((3 * -m) / 4)
    }
}

/// The arrow key for a movement: vertical or horizontal, and positive
/// (right or down) or negative (left or up).
pub open spec fn arrow_key(vert: bool, dir: bool) -> u16 {
    if vert {
        if dir {
            KEY_DOWN
        } else {
            KEY_UP
        }
    } else {
        if dir {
            KEY_RIGHT
        } else {
            KEY_LEFT
        }
    }
}

/// Whether the count `t` of events at the limit makes the key start repeating.
pub open spec fn starts_repeat(t: int, hold: int) -> bool {
    t > hold && t < 1000
}

/// One event at the limit of an axis: the arrow tap (only for the first such
/// event), the new count, and the repeat code (the arrow key when repeating
/// starts now, `KEY_10CHANNELSDOWN` otherwise).
pub open spec fn mouse_arrows_spec(vert: bool, dir: bool, t: int, hold: int) -> (
    Seq<InputEvent>,
    int,
    u16,
) {
    let key = arrow_key(vert, dir);
    let events = if t == 0 {
        key_tap(key)
    } else {
        Seq::<InputEvent>::empty()
    };
    let t1: int = if starts_repeat(t, hold) {
        1000
    } else {
        t
    };
    let rep = if starts_repeat(t, hold) {
        key
    } else {
        KEY_10CHANNELSDOWN
    };
    (events, t1 + 1, rep)
}

/// Handles one movement event that reaches the limit of an axis.
pub fn mouse_arrows(vert: bool, dir: bool, axis_lim_time: i32, hold_time: i32) -> (r: (
    Vec<InputEvent>,
    i32,
    u16,
))
    requires
        axis_lim_time < i32::MAX,
    ensures
        (r.0@, r.1 as int, r.2) == mouse_arrows_spec(vert, dir, axis_lim_time as int, hold_time as int),
{
    let mut rep: u16 = KEY_10CHANNELSDOWN;
    let key: u16 = if vert {
        if dir {
            KEY_DOWN
        } else {
            KEY_UP
        }
    } else {
        if dir {
            KEY_RIGHT
        } else {
            KEY_LEFT
        }
    };
    let events = if axis_lim_time == 0 {
        tap_events(key)
    } else {
        Vec::new()
    };
    let mut t = axis_lim_time;
    if t > hold_time {
        if t < 1000 {
            t = 1000;
            rep = key;
        }
    }
    t = t + 1;
    (events, t, rep)
}

/// Three quarters of `m`, truncated toward zero.
pub fn three_quarters_of(m: i32) -> (r: i32)
    ensures
        r as int == three_quarters(m as int),
{
    if m >= 0 {
        let n: i64 = m as i64;
        let q: i64 = n * 3 / 4;
        assert(0 <= q <= n) by (nonlinear_arith)
            requires
                0 <= n,
                q == n * 3 / 4,
        ;
        q as i32
    } else {
        let n: i64 = -(m as i64);
        let q: i64 = n * 3 / 4;
        assert(0 <= q <= n) by (nonlinear_arith)
            requires
                0 <= n,
                q == n * 3 / 4,
        ;
        assert(3 * -(m as int) == n * 3);
        (-q) as i32
    }
}

/// Whether a movement of `v` turns back from the limit: the axis stands at
/// its (positive) limit `ml` on one side, and `v` points to the other side.
pub open spec fn turns_back(pos: int, v: int, ml: int) -> bool {
    &&& 0 < ml
    &&& abs(pos) >= ml
    &&& (pos > 0 && v < 0) || (pos < 0 && v > 0)
}

/// The outcome of one movement event on an axis at position `pos`, whose
/// crossing axis is at `other` and whose count at the limit is `lim`:
/// new position, new crossing position, new count, events and repeat code.
///
/// A movement that turns back from the limit and goes right through to the
/// limit on the other side is taken as leaving the limit (the repeat stops if
/// the count had reached `hold`) and then reaching the other limit afresh
/// (one tap of the new arrow key).
pub open spec fn axis_step_spec(
    pos: int,
    other: int,
    lim: int,
    ml: int,
    hold: int,
    v: int,
    vert: bool,
) -> (int, int, int, Seq<InputEvent>, u16) {
    let p = pos + v;
    let other1 = if abs(p) > three_quarters(ml) {
        0
    } else {
        other
    };
    let leave = if lim >= hold {
        KEY_10CHANNELSUP
    } else {
        KEY_10CHANNELSDOWN
    };
    if abs(p) >= ml {
        let p1 = if v < 0 {
            -ml
        } else {
            ml
        };
        let t = if turns_back(pos, v, ml) {
            0
        } else {
            lim
        };
        let (evs, t1, rep) = mouse_arrows_spec(vert, !(v < 0), t, hold);
        let rep1 = if turns_back(pos, v, ml) && rep == KEY_10CHANNELSDOWN {
            leave
        } else {
            rep
        };
        (p1, other1, t1, evs, rep1)
    } else {
        (p, other1, 0, Seq::<InputEvent>::empty(), leave)
    }
}

/// When one movement event on an axis stays within `i32`: the sum and its
/// absolute value fit, and so do the clamped position and the new count.
pub open spec fn axis_defined(pos: int, v: int, ml: int, lim: int) -> bool {
    let p = pos + v;
    &&& i32::MIN < p <= i32::MAX
    &&& (abs(p) >= ml && !turns_back(pos, v, ml)) ==> lim < i32::MAX
    &&& (abs(p) >= ml && v < 0) ==> ml > i32::MIN
}

fn axis_step(
    pos: i32,
    other: i32,
    lim: i32,
    move_limit: i32,
    hold_time: i32,
    value: i32,
    vert: bool,
) -> (r: (i32, i32, i32, Vec<InputEvent>, u16))
    requires
        axis_defined(pos as int, value as int, move_limit as int, lim as int),
    ensures
        (r.0 as int, r.1 as int, r.2 as int, r.3@, r.4) == axis_step_spec(
            pos as int,
            other as int,
            lim as int,
            move_limit as int,
            hold_time as int,
            value as int,
            vert,
        ),
{
    let p: i32 = pos + value;
    let ap: i32 = if p < 0 {
        -p
    } else {
        p
    };
    let tq = three_quarters_of(move_limit);
    let other1: i32 = if ap > tq {
        0
    } else {
        other
    };
    let leave = if lim >= hold_time {
        KEY_10CHANNELSUP
    } else {
        KEY_10CHANNELSDOWN
    };
    if ap >= move_limit {
        let p1: i32 = if value < 0 {
            -move_limit
        } else {
            move_limit
        };
        let apos: i64 = if pos < 0 {
            -(pos as i64)
        } else {
            pos as i64
        };
        let reversing = 0 < move_limit && apos >= move_limit as i64 && ((pos > 0 && value < 0) || (
        pos < 0 && value > 0));
        let t = if reversing {
            0
        } else {
            lim
        };
        let (events, t1, rep) = mouse_arrows(vert, !(value < 0), t, hold_time);
        let rep1 = if reversing && rep == KEY_10CHANNELSDOWN {
            leave
        } else {
            rep
        };
        (p1, other1, t1, events, rep1)
    } else {
        (p, other1, 0, Vec::new(), leave)
    }
}

/// Whether the event is passed through unchanged and the state reset: while
/// the passthrough is on, and for every event that is neither movement nor
/// synchronisation.
pub open spec fn resets(passthrough: bool, ev: InputEvent) -> bool {
    passthrough || (ev.event_type != EV_REL && ev.event_type != EV_SYN)
}

/// The state at rest, with the same limits.
pub open spec fn at_rest(s: MouseArrow) -> MouseArrow {
    MouseArrow {
        x: 0,
        y: 0,
        x_lim_time: 0,
        y_lim_time: 0,
        move_limit: s.move_limit,
        hold_time: s.hold_time,
    }
}

/// The repeat command that a repeat code stands for.
pub open spec fn repeat_command(code: u16) -> RepeatCommand {
    if code == KEY_10CHANNELSDOWN {
        RepeatCommand::Keep
    } else if code == KEY_10CHANNELSUP {
        RepeatCommand::Stop
    } else {
        RepeatCommand::Start(code)
    }
}

/// The whole effect of one event on the mouse state: new state, events to
/// send, and repeat command.
pub open spec fn step_spec(s: MouseArrow, passthrough: bool, ev: InputEvent) -> (
    MouseArrow,
    Seq<InputEvent>,
    RepeatCommand,
) {
    if resets(passthrough, ev) {
        (at_rest(s), seq![ev], RepeatCommand::Stop)
    } else if ev.value == 0 {
        (s, Seq::<InputEvent>::empty(), RepeatCommand::Keep)
    } else if ev.code == REL_X {
        let (p, o, t, evs, rep) = axis_step_spec(
            s.x as int,
            s.y as int,
            s.x_lim_time as int,
            s.move_limit as int,
            s.hold_time as int,
            ev.value as int,
            false,
        );
        (
            MouseArrow { x: p as i32, y: o as i32, x_lim_time: t as i32, ..s },
            evs,
            repeat_command(rep),
        )
    } else if ev.code == REL_Y {
        let (p, o, t, evs, rep) = axis_step_spec(
            s.y as int,
            s.x as int,
            s.y_lim_time as int,
            s.move_limit as int,
            s.hold_time as int,
            ev.value as int,
            true,
        );
        (
            MouseArrow { y: p as i32, x: o as i32, y_lim_time: t as i32, ..s },
            evs,
            repeat_command(rep),
        )
    } else {
        (s, seq![ev], RepeatCommand::Keep)
    }
}

/// The inputs on which handling `ev` stays within `i32`.
pub open spec fn step_defined(s: MouseArrow, passthrough: bool, ev: InputEvent) -> bool {
    (!resets(passthrough, ev) && ev.value != 0) ==> {
        &&& ev.code == REL_X ==> axis_defined(
            s.x as int,
            ev.value as int,
            s.move_limit as int,
            s.x_lim_time as int,
        )
        &&& ev.code == REL_Y ==> axis_defined(
            s.y as int,
            ev.value as int,
            s.move_limit as int,
            s.y_lim_time as int,
        )
    }
}

/// Whether one movement event on an axis stays within `i32`, as
/// `axis_defined` says.
fn axis_ok(pos: i32, v: i32, ml: i32, lim: i32) -> (r: bool)
    ensures
        r == axis_defined(pos as int, v as int, ml as int, lim as int),
{
    let p: i64 = pos as i64 + v as i64;
    if p <= i32::MIN as i64 || p > i32::MAX as i64 {
        return false;
    }
    let ap: i64 = if p < 0 {
        -p
    } else {
        p
    };
    let apos: i64 = if pos < 0 {
        -(pos as i64)
    } else {
        pos as i64
    };
    let reversing = 0 < ml && apos >= ml as i64 && ((pos > 0 && v < 0) || (pos < 0 && v > 0));
    if ap >= ml as i64 {
        if lim == i32::MAX && !reversing {
            return false;
        }
        if v < 0 && ml == i32::MIN {
            return false;
        }
    }
    true
}

impl MouseArrow {
    /// Whether `handle_event` can take `ev` in this state without leaving
    /// `i32`, as `step_defined` says.
    pub fn can_handle(&self, passthrough: bool, ev: InputEvent) -> (r: bool)
        ensures
            r == step_defined(*self, passthrough, ev),
    {
        if passthrough || (ev.event_type != EV_REL && ev.event_type != EV_SYN) || ev.value == 0 {
            true
        } else if ev.code == REL_X {
            axis_ok(self.x, ev.value, self.move_limit, self.x_lim_time)
        } else if ev.code == REL_Y {
            axis_ok(self.y, ev.value, self.move_limit, self.y_lim_time)
        } else {
            true
        }
    }

    /// The state at rest with the given limits.
    pub fn new(move_limit: i32, hold_time: i32) -> (s: MouseArrow)
        ensures
            s == (MouseArrow { x: 0, y: 0, x_lim_time: 0, y_lim_time: 0, move_limit, hold_time }),
    {
        MouseArrow { x: 0, y: 0, x_lim_time: 0, y_lim_time: 0, move_limit, hold_time }
    }

    /// Handles one event read from the mouse, with the Caps-Lock passthrough
    /// on or off.
    pub fn handle_event(&mut self, passthrough: bool, ev: InputEvent) -> (out: MouseOutput)
        requires
            step_defined(*old(self), passthrough, ev),
        ensures
            (*final(self), out.events@, out.repeat) == step_spec(*old(self), passthrough, ev),
    {
        if passthrough || (ev.event_type != EV_REL && ev.event_type != EV_SYN) {
            *self = MouseArrow::new(self.move_limit, self.hold_time);
            let mut events: Vec<InputEvent> = Vec::new();
            events.push(ev);
            return MouseOutput { events, repeat: RepeatCommand::Stop };
        }
        if ev.value == 0 {
            return MouseOutput { events: Vec::new(), repeat: RepeatCommand::Keep };
        }
        let events: Vec<InputEvent>;
        let rep: u16;
        if ev.code == REL_X {
            let (p, o, t, evs, r) = axis_step(
                self.x,
                self.y,
                self.x_lim_time,
                self.move_limit,
                self.hold_time,
                ev.value,
                false,
            );
            self.x = p;
            self.y = o;
            self.x_lim_time = t;
            events = evs;
            rep = r;
        } else if ev.code == REL_Y {
            let (p, o, t, evs, r) = axis_step(
                self.y,
                self.x,
                self.y_lim_time,
                self.move_limit,
                self.hold_time,
                ev.value,
                true,
            );
            self.y = p;
            self.x = o;
            self.y_lim_time = t;
            events = evs;
            rep = r;
        } else {
            let mut evs: Vec<InputEvent> = Vec::new();
            evs.push(ev);
            events = evs;
            rep = KEY_10CHANNELSDOWN;
        }
        let repeat = if rep == KEY_10CHANNELSDOWN {
            RepeatCommand::Keep
        } else if rep == KEY_10CHANNELSUP {
            RepeatCommand::Stop
        } else {
            RepeatCommand::Start(rep)
        };
        MouseOutput { events, repeat }
    }
}

} // verus!
