//! What the mouse-to-arrow state machine promises over single events and over
//! runs of events.
use vstd::prelude::*;
use crate::codes::{InputEvent, key_tap, EV_REL, REL_X, REL_Y, KEY_10CHANNELSDOWN};
use crate::arrows::{
    MouseArrow, RepeatCommand, abs, arrow_key, at_rest, mouse_arrows_spec, resets, turns_back,
    starts_repeat, step_defined, step_spec, three_quarters,
};

verus! {

/// The collected movement lies within the movement limit, and the counts of
/// events at the limit are not negative.
pub open spec fn in_bounds(s: MouseArrow) -> bool {
    &&& 0 <= s.move_limit
    &&& abs(s.x as int) <= s.move_limit
    &&& abs(s.y as int) <= s.move_limit
    &&& 0 <= s.x_lim_time
    &&& 0 <= s.y_lim_time
}

/// The position on the axis that an event of code `code` moves.
pub open spec fn axis_pos(s: MouseArrow, code: u16) -> int {
    if code == REL_X {
        s.x as int
    } else {
        s.y as int
    }
}

/// The position on the other axis.
pub open spec fn cross_pos(s: MouseArrow, code: u16) -> int {
    if code == REL_X {
        s.y as int
    } else {
        s.x as int
    }
}

/// The count of events at the limit on the axis that `code` moves.
pub open spec fn axis_count(s: MouseArrow, code: u16) -> int {
    if code == REL_X {
        s.x_lim_time as int
    } else {
        s.y_lim_time as int
    }
}

/// The count on the other axis.
pub open spec fn cross_count(s: MouseArrow, code: u16) -> int {
    if code == REL_X {
        s.y_lim_time as int
    } else {
        s.x_lim_time as int
    }
}

/// A movement event on the horizontal or the vertical axis.
pub open spec fn is_axis_move(ev: InputEvent) -> bool {
    &&& ev.event_type == EV_REL
    &&& ev.code == REL_X || ev.code == REL_Y
    &&& ev.value != 0
}

/// The arrow key that a movement event points to.
pub open spec fn move_key(ev: InputEvent) -> u16 {
    arrow_key(ev.code == REL_Y, ev.value > 0)
}

/// Every handled event keeps the collected movement within the movement
/// limit and the counts of events at the limit non-negative.
pub proof fn law_step_keeps_bounds(s: MouseArrow, passthrough: bool, ev: InputEvent)
    requires
        in_bounds(s),
        step_defined(s, passthrough, ev),
    ensures
        in_bounds(step_spec(s, passthrough, ev).0),
{
}

/// While the passthrough is on, and for every event that is neither movement
/// nor synchronisation, the event is passed on unchanged, the repeat stops,
/// and the state returns to rest.
pub proof fn law_passthrough_forwards(s: MouseArrow, passthrough: bool, ev: InputEvent)
    requires
        resets(passthrough, ev),
    ensures
        step_spec(s, passthrough, ev) == (at_rest(s), seq![ev], RepeatCommand::Stop),
{
}

/// A movement or synchronisation event of value 0 changes nothing and sends
/// nothing.
pub proof fn law_still_event_ignored(s: MouseArrow, ev: InputEvent)
    requires
        !resets(false, ev),
        ev.value == 0,
    ensures
        step_spec(s, false, ev) == (s, Seq::<InputEvent>::empty(), RepeatCommand::Keep),
{
}

/// Movement on another axis (a wheel, say) is passed on unchanged and leaves
/// the state and the repeat as they are.
pub proof fn law_other_axis_forwarded(s: MouseArrow, ev: InputEvent)
    requires
        !resets(false, ev),
        ev.value != 0,
        ev.code != REL_X,
        ev.code != REL_Y,
    ensures
        step_spec(s, false, ev) == (s, seq![ev], RepeatCommand::Keep),
{
}

/// The first movement event that brings an axis to its limit sends exactly
/// one tap of the arrow key in the direction of the movement, and clamps the
/// axis to the limit on that side.
pub proof fn law_first_push_taps_arrow(s: MouseArrow, ev: InputEvent)
    requires
        !resets(false, ev),
        is_axis_move(ev),
        step_defined(s, false, ev),
        axis_count(s, ev.code) == 0,
        abs(axis_pos(s, ev.code) + ev.value) >= s.move_limit,
    ensures
        step_spec(s, false, ev).1 == key_tap(move_key(ev)),
        axis_pos(step_spec(s, false, ev).0, ev.code) == (if ev.value > 0 {
            s.move_limit as int
        } else {
            -s.move_limit
        }),
{
}

/// Each further movement event at the limit that does not turn back from it
/// is counted; once the count exceeds `hold_time` (and is
/// below 1000) the arrow key starts repeating and the count jumps past 1000,
/// so that repeating starts only once.
pub proof fn law_push_at_limit(s: MouseArrow, ev: InputEvent)
    requires
        !resets(false, ev),
        is_axis_move(ev),
        step_defined(s, false, ev),
        !turns_back(axis_pos(s, ev.code), ev.value as int, s.move_limit as int),
        abs(axis_pos(s, ev.code) + ev.value) >= s.move_limit,
    ensures
        ({
            let t = axis_count(s, ev.code);
            let r = step_spec(s, false, ev);
            &&& axis_pos(r.0, ev.code) == (if ev.value > 0 {
                s.move_limit as int
            } else {
                -s.move_limit
            })
            &&& t != 0 ==> r.1 == Seq::<InputEvent>::empty()
            &&& starts_repeat(t, s.hold_time as int) ==> {
                &&& r.2 == RepeatCommand::Start(move_key(ev))
                &&& axis_count(r.0, ev.code) == 1001
            }
            &&& !starts_repeat(t, s.hold_time as int) ==> {
                &&& r.2 == RepeatCommand::Keep
                &&& axis_count(r.0, ev.code) == t + 1
            }
        }),
{
}

/// A movement event that leaves the axis below its limit sends nothing and
/// resets the count; if the count had reached `hold_time`, the repeat stops.
pub proof fn law_leaving_limit_stops_repeat(s: MouseArrow, ev: InputEvent)
    requires
        !resets(false, ev),
        is_axis_move(ev),
        step_defined(s, false, ev),
        abs(axis_pos(s, ev.code) + ev.value) < s.move_limit,
    ensures
        ({
            let r = step_spec(s, false, ev);
            &&& r.1 == Seq::<InputEvent>::empty()
            &&& axis_pos(r.0, ev.code) == axis_pos(s, ev.code) + ev.value
            &&& axis_count(r.0, ev.code) == 0
            &&& r.2 == (if axis_count(s, ev.code) >= s.hold_time {
                RepeatCommand::Stop
            } else {
                RepeatCommand::Keep
            })
        }),
{
}

/// Movement beyond three quarters of the limit on one axis clears the
/// movement collected on the other axis; otherwise the other axis is kept.
/// The other axis's count is never touched.
pub proof fn law_cross_axis_cleared(s: MouseArrow, ev: InputEvent)
    requires
        !resets(false, ev),
        is_axis_move(ev),
        step_defined(s, false, ev),
    ensures
        ({
            let r = step_spec(s, false, ev).0;
            &&& cross_pos(r, ev.code) == (if abs(axis_pos(s, ev.code) + ev.value) > three_quarters(
                s.move_limit as int,
            ) {
                0
            } else {
                cross_pos(s, ev.code)
            })
            &&& cross_count(r, ev.code) == cross_count(s, ev.code)
            &&& r.move_limit == s.move_limit
            &&& r.hold_time == s.hold_time
        }),
{
}

/// Once the key repeats (the axis stands at its limit and the count has
/// reached `hold_time`), any movement back in the opposite direction stops
/// the repeat. A movement large enough
/// to reach the limit on the other side also sends one tap of the arrow key
/// of its own direction, and counts as the first event at that limit (so
/// with a negative `hold_time` that key starts repeating at once).
pub proof fn law_opposite_move_stops_repeat(s: MouseArrow, ev: InputEvent)
    requires
        !resets(false, ev),
        is_axis_move(ev),
        step_defined(s, false, ev),
        0 < s.move_limit,
        axis_count(s, ev.code) >= s.hold_time,
        turns_back(axis_pos(s, ev.code), ev.value as int, s.move_limit as int),
    ensures
        ({
            let r = step_spec(s, false, ev);
            let crossed = abs(axis_pos(s, ev.code) + ev.value) >= s.move_limit;
            &&& r.2 == (if crossed && s.hold_time < 0 {
                RepeatCommand::Start(move_key(ev))
            } else {
                RepeatCommand::Stop
            })
            &&& r.1 == (if crossed {
                key_tap(move_key(ev))
            } else {
                Seq::<InputEvent>::empty()
            })
            &&& crossed ==> axis_count(r.0, ev.code) == (if s.hold_time < 0 {
                1001int
            } else {
                1int
            })
        }),
{
}

/// Every movement event that leaves an axis at its (positive) limit leaves
/// that axis's count at 1 or more, whatever the event and the count before:
/// each reach of the limit is one arrow press, not the start of another.
pub proof fn law_limit_count_positive(s: MouseArrow, ev: InputEvent)
    requires
        in_bounds(s),
        0 < s.move_limit,
        !resets(false, ev),
        is_axis_move(ev),
        step_defined(s, false, ev),
        abs(axis_pos(step_spec(s, false, ev).0, ev.code)) >= s.move_limit,
    ensures
        axis_count(step_spec(s, false, ev).0, ev.code) >= 1,
{
}

/// A flick back from one limit right through to the other sends one tap of
/// the new arrow key and counts as the first event at the new limit: the new
/// count is 1 (1001 with a negative `hold_time`, where the new key starts
/// repeating at once), whatever the count before.
pub proof fn law_turn_back_crossing(s: MouseArrow, ev: InputEvent)
    requires
        !resets(false, ev),
        is_axis_move(ev),
        step_defined(s, false, ev),
        turns_back(axis_pos(s, ev.code), ev.value as int, s.move_limit as int),
        abs(axis_pos(s, ev.code) + ev.value) >= s.move_limit,
    ensures
        ({
            let r = step_spec(s, false, ev);
            &&& r.1 == key_tap(move_key(ev))
            &&& axis_count(r.0, ev.code) == (if s.hold_time < 0 {
                1001int
            } else {
                1int
            })
            &&& axis_pos(r.0, ev.code) == (if ev.value > 0 {
                s.move_limit as int
            } else {
                -s.move_limit
            })
            &&& r.2 != RepeatCommand::Start(arrow_key(ev.code == REL_Y, ev.value < 0))
        }),
{
}

/// Two movement events in a row on one axis: once the first leaves the axis
/// at its limit, a second one further in the same direction sends nothing.
/// So a movement to one side sends one arrow press, however it is split up.
pub proof fn law_no_second_tap(s: MouseArrow, ev1: InputEvent, ev2: InputEvent)
    requires
        in_bounds(s),
        0 < s.move_limit,
        !resets(false, ev1),
        is_axis_move(ev1),
        step_defined(s, false, ev1),
        ev2.event_type == EV_REL,
        ev2.code == ev1.code,
        ev1.value > 0 ==> ev2.value > 0,
        ev1.value < 0 ==> ev2.value < 0,
        abs(axis_pos(step_spec(s, false, ev1).0, ev1.code)) >= s.move_limit,
        step_defined(step_spec(s, false, ev1).0, false, ev2),
    ensures
        step_spec(step_spec(s, false, ev1).0, false, ev2).1 == Seq::<InputEvent>::empty(),
{
    let s1 = step_spec(s, false, ev1).0;
    law_limit_count_positive(s, ev1);
    law_step_keeps_bounds(s, false, ev1);
    assert(!is_axis_move(ev2) || !turns_back(axis_pos(s1, ev2.code), ev2.value as int, s1.move_limit as int));
    law_push_at_limit(s1, ev2);
}

/// Every event whose values keep position, sum and count inside `i32` can be
/// handled: from a state within bounds, a movement of at most
/// `i32::MAX - move_limit` while both counts are below `i32::MAX`, including
/// a flick back from one limit to the other.
pub proof fn law_ordinary_events_can_be_handled(s: MouseArrow, passthrough: bool, ev: InputEvent)
    requires
        in_bounds(s),
        abs(ev.value as int) <= i32::MAX - s.move_limit,
        s.x_lim_time < i32::MAX,
        s.y_lim_time < i32::MAX,
    ensures
        step_defined(s, passthrough, ev),
{
}

/// The state, the events sent and the repeat commands after handling `evs`
/// in order, starting from `s`.
pub open spec fn run(s: MouseArrow, passthrough: bool, evs: Seq<InputEvent>) -> (
    MouseArrow,
    Seq<InputEvent>,
    Seq<RepeatCommand>,
)
    decreases evs.len(),
{
    if evs.len() == 0 {
        (s, Seq::<InputEvent>::empty(), Seq::<RepeatCommand>::empty())
    } else {
        let (s1, out1, reps1) = run(s, passthrough, evs.drop_last());
        let (s2, out2, rep2) = step_spec(s1, passthrough, evs.last());
        (s2, out1 + out2, reps1.push(rep2))
    }
}

/// Every event of `evs` can be handled in turn, starting from `s`.
pub open spec fn run_defined(s: MouseArrow, passthrough: bool, evs: Seq<InputEvent>) -> bool
    decreases evs.len(),
{
    if evs.len() == 0 {
        true
    } else {
        &&& run_defined(s, passthrough, evs.drop_last())
        &&& step_defined(run(s, passthrough, evs.drop_last()).0, passthrough, evs.last())
    }
}

/// The state at rest with the given limits.
pub open spec fn rest_state(move_limit: i32, hold_time: i32) -> MouseArrow {
    MouseArrow { x: 0, y: 0, x_lim_time: 0, y_lim_time: 0, move_limit, hold_time }
}

/// The sum of the values of `evs`: the movement they carry together.
pub open spec fn total(evs: Seq<InputEvent>) -> int
    decreases evs.len(),
{
    if evs.len() == 0 {
        0
    } else {
        total(evs.drop_last()) + evs.last().value
    }
}

/// Movement events on the axis `code`, all in one direction (positive when
/// `dir`), none of them larger than `i32::MAX - move_limit`.
pub open spec fn one_way(evs: Seq<InputEvent>, code: u16, dir: bool, move_limit: i32) -> bool {
    forall|i: int|
        0 <= i < evs.len() ==> {
            &&& (#[trigger] evs[i]).event_type == EV_REL
            &&& evs[i].code == code
            &&& if dir {
                evs[i].value > 0
            } else {
                evs[i].value < 0
            }
            &&& abs(evs[i].value as int) <= i32::MAX - move_limit
        }
}

/// `f` is the position of the event at which the movement collected from the
/// start of `evs` first reaches `move_limit`, or `evs.len()` if it never does.
pub open spec fn first_reach(evs: Seq<InputEvent>, move_limit: i32, f: int) -> bool {
    &&& 0 <= f <= evs.len()
    &&& forall|k: int| 0 <= k < f ==> abs(#[trigger] total(evs.take(k + 1))) < move_limit
    &&& f < evs.len() ==> abs(total(evs.take(f + 1))) >= move_limit
}

/// The count of events at the limit after the `j`-th such event in a row:
/// `j` until repeating starts, then past 1000.
pub open spec fn count_after(j: int, hold_time: int) -> int {
    if j <= hold_time + 1 {
        j
    } else {
        1000 + j - hold_time - 1
    }
}

/// The repeat command for a movement event below the limit, from a count of
/// 0: stop when `hold_time` is 0 or less, else keep.
pub open spec fn below_limit_command(hold_time: i32) -> RepeatCommand {
    if hold_time <= 0 {
        RepeatCommand::Stop
    } else {
        RepeatCommand::Keep
    }
}

/// The repeat commands for the first `k` events of a one-way run that first
/// reaches the limit at event `f`: the command below the limit before `f`,
/// `Start(key)` at event `f + hold_time + 1`, and `Keep` everywhere else.
pub open spec fn one_way_commands(k: nat, f: int, hold_time: i32, key: u16) -> Seq<RepeatCommand> {
    Seq::new(
        k,
        |i: int|
            if i < f {
                below_limit_command(hold_time)
            } else if i == f + hold_time + 1 {
                RepeatCommand::Start(key)
            } else {
                RepeatCommand::Keep
            },
    )
}

proof fn lemma_one_way_prefix(
    move_limit: i32,
    hold_time: i32,
    code: u16,
    dir: bool,
    evs: Seq<InputEvent>,
    f: int,
    k: nat,
)
    requires
        0 < move_limit,
        -1 <= hold_time <= 998,
        code == REL_X || code == REL_Y,
        one_way(evs, code, dir, move_limit),
        first_reach(evs, move_limit, f),
        evs.len() <= 1_000_000_000,
        k <= evs.len(),
    ensures
        ({
            let s0 = rest_state(move_limit, hold_time);
            let key = arrow_key(code == REL_Y, dir);
            let r = run(s0, false, evs.take(k as int));
            &&& run_defined(s0, false, evs.take(k as int))
            &&& dir ==> total(evs.take(k as int)) >= 0
            &&& !dir ==> total(evs.take(k as int)) <= 0
            &&& r.0.move_limit == move_limit
            &&& r.0.hold_time == hold_time
            &&& cross_pos(r.0, code) == 0
            &&& cross_count(r.0, code) == 0
            &&& k <= f ==> axis_pos(r.0, code) == total(evs.take(k as int)) && axis_count(r.0, code)
                == 0
            &&& k > f ==> axis_pos(r.0, code) == (if dir {
                move_limit as int
            } else {
                -move_limit
            }) && axis_count(r.0, code) == count_after(k - f, hold_time as int)
            &&& r.1 == (if k > f {
                key_tap(key)
            } else {
                Seq::<InputEvent>::empty()
            })
            &&& r.2 == one_way_commands(k, f, hold_time, key)
        }),
    decreases k,
{
    let s0 = rest_state(move_limit, hold_time);
    let key = arrow_key(code == REL_Y, dir);
    if k == 0 {
        assert(evs.take(0) =~= Seq::<InputEvent>::empty());
        assert(one_way_commands(0, f, hold_time, key) =~= Seq::<RepeatCommand>::empty());
    } else {
        let km = (k - 1) as nat;
        lemma_one_way_prefix(move_limit, hold_time, code, dir, evs, f, km);
        let cur = evs.take(k as int);
        let ev = evs[km as int];
        assert(cur.drop_last() =~= evs.take(km as int));
        assert(cur.last() == ev);
        assert(total(cur) == total(evs.take(km as int)) + ev.value);
        let prev = run(s0, false, evs.take(km as int));
        let st = step_spec(prev.0, false, ev);
        let r = run(s0, false, cur);
        assert(r == (st.0, prev.1 + st.1, prev.2.push(st.2)));
        assert(ev.event_type == EV_REL && ev.code == code);
        assert(is_axis_move(ev));
        assert(!resets(false, ev));
        if km <= f {
            if km > 0 {
                assert(abs(total(evs.take((km - 1) + 1))) < move_limit);
            }
            assert(!turns_back(axis_pos(prev.0, code), ev.value as int, move_limit as int));
            assert(step_defined(prev.0, false, ev));
            law_cross_axis_cleared(prev.0, ev);
            if km < f {
                assert(abs(total(evs.take(km as int + 1))) < move_limit);
                law_leaving_limit_stops_repeat(prev.0, ev);
            } else {
                assert(abs(total(evs.take(km as int + 1))) >= move_limit);
                law_first_push_taps_arrow(prev.0, ev);
                law_push_at_limit(prev.0, ev);
            }
        } else {
            assert(step_defined(prev.0, false, ev));
            law_cross_axis_cleared(prev.0, ev);
            law_push_at_limit(prev.0, ev);
            assert(st.1 =~= Seq::<InputEvent>::empty());
        }
        assert(r.1 =~= (if k > f {
            key_tap(key)
        } else {
            Seq::<InputEvent>::empty()
        }));
        assert(r.2 =~= one_way_commands(k, f, hold_time, key));
        assert(run_defined(s0, false, cur));
    }
}

/// Moving the mouse one way along one axis, from rest, in events of any size
/// (each nonzero and within `i32` of the limit): exactly one tap of the arrow
/// key in that direction is sent, at the event where the collected movement
/// first reaches `move_limit`; the key starts repeating exactly once, at the
/// `hold_time + 1`-th event after that one; every other repeat command is
/// `Keep`, or, before the limit is reached and with `hold_time` 0 or -1,
/// `Stop`.
/// Every event along the way can be handled.
pub proof fn law_one_way_run(
    move_limit: i32,
    hold_time: i32,
    code: u16,
    dir: bool,
    evs: Seq<InputEvent>,
    f: int,
)
    requires
        0 < move_limit,
        -1 <= hold_time <= 998,
        code == REL_X || code == REL_Y,
        one_way(evs, code, dir, move_limit),
        first_reach(evs, move_limit, f),
        evs.len() <= 1_000_000_000,
    ensures
        ({
            let s0 = rest_state(move_limit, hold_time);
            let key = arrow_key(code == REL_Y, dir);
            let r = run(s0, false, evs);
            &&& run_defined(s0, false, evs)
            &&& r.1 == (if f < evs.len() {
                key_tap(key)
            } else {
                Seq::<InputEvent>::empty()
            })
            &&& r.2 == one_way_commands(evs.len(), f, hold_time, key)
            &&& forall|i: int|
                0 <= i < evs.len() ==> ((#[trigger] r.2[i] is Start) <==> i == f + hold_time + 1)
        }),
{
    lemma_one_way_prefix(move_limit, hold_time, code, dir, evs, f, evs.len());
    assert(evs.take(evs.len() as int) =~= evs);
}

/// The outcome of `n` calls of `mouse_arrows` in a row, each given the count
/// that the call before returned, starting from 0: the events of each call,
/// the last count, and the repeat code of each call.
pub open spec fn chained_arrows(vert: bool, dir: bool, hold_time: int, n: nat) -> (
    Seq<Seq<InputEvent>>,
    int,
    Seq<u16>,
)
    decreases n,
{
    if n == 0 {
        (Seq::<Seq<InputEvent>>::empty(), 0, Seq::<u16>::empty())
    } else {
        let (evs, t, reps) = chained_arrows(vert, dir, hold_time, (n - 1) as nat);
        let (e, t1, rep) = mouse_arrows_spec(vert, dir, t, hold_time);
        (evs.push(e), t1, reps.push(rep))
    }
}

/// Calling `mouse_arrows` again and again, each time with the count it
/// returned, from 0: the first call sends one tap of the arrow key and no
/// later call sends anything; the key starts repeating at call number
/// `hold_time + 1` (counting from 0) and at no other; the count after `n`
/// calls is `count_after(n, hold_time)`, so it stays below `i32::MAX` for up
/// to a billion calls.
pub proof fn law_chained_mouse_arrows(vert: bool, dir: bool, hold_time: int, n: nat)
    requires
        -1 <= hold_time <= 998,
    ensures
        ({
            let (evs, t, reps) = chained_arrows(vert, dir, hold_time, n);
            let key = arrow_key(vert, dir);
            &&& evs.len() == n
            &&& reps.len() == n
            &&& n > 0 ==> evs[0] == key_tap(key)
            &&& forall|i: int| 0 < i < n ==> #[trigger] evs[i] == Seq::<InputEvent>::empty()
            &&& forall|i: int|
                0 <= i < n ==> #[trigger] reps[i] == (if i == hold_time + 1 {
                    key
                } else {
                    KEY_10CHANNELSDOWN
                })
            &&& t == count_after(n as int, hold_time)
            &&& n <= 1_000_000_000 ==> t < i32::MAX
        }),
    decreases n,
{
    if n > 0 {
        law_chained_mouse_arrows(vert, dir, hold_time, (n - 1) as nat);
        let (evs0, t0, reps0) = chained_arrows(vert, dir, hold_time, (n - 1) as nat);
        let (evs, t, reps) = chained_arrows(vert, dir, hold_time, n);
        assert(evs == evs0.push(mouse_arrows_spec(vert, dir, t0, hold_time).0));
        assert(reps == reps0.push(mouse_arrows_spec(vert, dir, t0, hold_time).2));
        assert forall|i: int| 0 < i < n implies #[trigger] evs[i] == Seq::<InputEvent>::empty() by {
            if i < n - 1 {
                assert(evs[i] == evs0[i]);
            }
        }
        assert forall|i: int|
            0 <= i < n implies #[trigger] reps[i] == (if i == hold_time + 1 {
                arrow_key(vert, dir)
            } else {
                KEY_10CHANNELSDOWN
            }) by {
            if i < n - 1 {
                assert(reps[i] == reps0[i]);
            }
        }
    }
}

} // verus!
