//! Choosing the input devices: which devices can serve as mouse or keyboard,
//! how the user confirms the right one, and the capabilities of the merged
//! virtual device.
use vstd::prelude::*;
use crate::codes::{InputEvent, EV_KEY, EV_REL, REL_MISC, KEY_COUNT, REL_COUNT};
use crate::error::MouseKeyError;

verus! {

/// What a device reports it can do: the event types it sends, its relative
/// axes, and its keys (`None` where it reports none).
pub struct DeviceCaps {
    pub event_types: Vec<u16>,
    pub rel_axes: Option<Vec<u16>>,
    pub keys: Option<Vec<u16>>,
}

/// A device can serve when it sends events of type `evtype`, has the axis
/// `rel` (unless `rel` is `REL_MISC`, which asks for no axis), and reports
/// keys among which are all of `keys`.
pub open spec fn compatible(caps: DeviceCaps, evtype: u16, rel: u16, keys: Seq<u16>) -> bool {
    &&& caps.event_types@.contains(evtype)
    &&& rel != REL_MISC ==> (caps.rel_axes matches Some(axes) && axes@.contains(rel))
    &&& caps.keys matches Some(dev_keys) && forall|i: int|
        0 <= i < keys.len() ==> dev_keys@.contains(#[trigger] keys[i])
}

/// Whether `code` occurs in `codes`.
pub fn contains_code(codes: &Vec<u16>, code: u16) -> (r: bool)
    ensures
        r == codes@.contains(code),
{
    let mut i: usize = 0;
    while i < codes.len()
        invariant
            i <= codes.len(),
            forall|j: int| 0 <= j < i ==> codes@[j] != code,
        decreases codes.len() - i,
    {
        if codes[i] == code {
            return true;
        }
        i = i + 1;
    }
    false
}

/// Whether the device with capabilities `caps` can serve, as `compatible` says.
pub fn is_compatible(caps: &DeviceCaps, evtype: u16, rel: u16, keys: &Vec<u16>) -> (r: bool)
    ensures
        r == compatible(*caps, evtype, rel, keys@),
{
    if !contains_code(&caps.event_types, evtype) {
        return false;
    }
    if rel != REL_MISC {
        match &caps.rel_axes {
            Some(axes) => {
                if !contains_code(axes, rel) {
                    return false;
                }
            },
            None => {
                return false;
            },
        }
    }
    match &caps.keys {
        None => false,
        Some(dev_keys) => {
            let mut i: usize = 0;
            while i < keys.len()
                invariant
                    i <= keys.len(),
                    caps.keys == Some(*dev_keys),
                    caps.event_types@.contains(evtype),
                    rel != REL_MISC ==> (caps.rel_axes matches Some(axes) && axes@.contains(rel)),
                    forall|j: int| 0 <= j < i ==> dev_keys@.contains(#[trigger] keys@[j]),
                decreases keys.len() - i,
            {
                if !contains_code(dev_keys, keys[i]) {
                    assert(!dev_keys@.contains(keys@[i as int]));
                    return false;
                }
                i = i + 1;
            }
            true
        },
    }
}

/// The positions, in order, of the devices that can serve; the error
/// `NoDeviceError` when none can.
pub fn compatible_devices(devices: &Vec<DeviceCaps>, evtype: u16, rel: u16, keys: &Vec<u16>) -> (r:
    Result<Vec<usize>, MouseKeyError>)
    ensures
        r is Err <==> (forall|j: int|
            0 <= j < devices.len() ==> !compatible(#[trigger] devices@[j], evtype, rel, keys@)),
        r matches Err(e) ==> e == MouseKeyError::NoDeviceError,
        r matches Ok(idx) ==> {
            &&& idx.len() > 0
            &&& forall|k: int|
                0 <= k < idx.len() ==> idx@[k] < devices.len() && compatible(
                    devices@[#[trigger] idx@[k] as int],
                    evtype,
                    rel,
                    keys@,
                )
            &&& forall|j: int|
                0 <= j < devices.len() && compatible(#[trigger] devices@[j], evtype, rel, keys@)
                    ==> idx@.contains(j as usize)
            &&& forall|a: int, b: int| 0 <= a < b < idx.len() ==> idx@[a] < idx@[b]
        },
{
    let mut idx: Vec<usize> = Vec::new();
    let mut i: usize = 0;
    while i < devices.len()
        invariant
            i <= devices.len(),
            forall|k: int|
                0 <= k < idx.len() ==> idx@[k] < i && compatible(
                    devices@[#[trigger] idx@[k] as int],
                    evtype,
                    rel,
                    keys@,
                ),
            forall|j: int|
                0 <= j < i && compatible(#[trigger] devices@[j], evtype, rel, keys@)
                    ==> idx@.contains(j as usize),
            forall|a: int, b: int| 0 <= a < b < idx.len() ==> idx@[a] < idx@[b],
        decreases devices.len() - i,
    {
        if is_compatible(&devices[i], evtype, rel, keys) {
            let ghost before = idx@;
            idx.push(i);
            assert forall|j: int|
                0 <= j <= i && compatible(#[trigger] devices@[j], evtype, rel, keys@)
                implies idx@.contains(j as usize) by {
                if j < i {
                    let k = choose|k: int| 0 <= k < before.len() && before[k] == j as usize;
                    assert(idx@[k] == j as usize);
                } else {
                    assert(idx@[before.len() as int] == j as usize);
                }
            }
        }
        i = i + 1;
    }
    if idx.len() == 0 {
        assert forall|j: int|
            0 <= j < devices.len() implies !compatible(#[trigger] devices@[j], evtype, rel, keys@) by {
            if compatible(devices@[j], evtype, rel, keys@) {
                assert(idx@.contains(j as usize));
            }
        }
        Err(MouseKeyError::NoDeviceError)
    } else {
        assert(compatible(devices@[idx@[0] as int], evtype, rel, keys@));
        Ok(idx)
    }
}

/// Keeps every code but `code`.
pub open spec fn other_than(code: u16) -> spec_fn(u16) -> bool {
    |k: u16| k != code
}

/// How far the user has got in confirming one candidate device: the axis
/// still to be moved (`REL_MISC` once moved, or when none is asked for), the
/// keys still to be pressed, how many of the required inputs have been seen,
/// and how many are required.
pub struct Confirmation {
    pub pending_rel: u16,
    pub pending_keys: Vec<u16>,
    pub seen: usize,
    pub needed: usize,
}

impl Confirmation {
    /// Every required input is either seen or still pending.
    pub open spec fn wf(&self) -> bool {
        self.seen + self.pending_keys.len() + (if self.pending_rel != REL_MISC {
            1int
        } else {
            0int
        }) == self.needed
    }

    /// All required inputs have been seen.
    pub open spec fn done(&self) -> bool {
        self.seen == self.needed
    }

    /// A fresh confirmation that asks for a movement on `rel` (none if `rel`
    /// is `REL_MISC`, which then counts as seen) and a press of every key of
    /// `keys`.
    pub fn new(rel: u16, keys: &Vec<u16>) -> (c: Confirmation)
        requires
            keys.len() < usize::MAX,
        ensures
            c.wf(),
            c.pending_rel == rel,
            c.pending_keys@ == keys@,
            c.needed == keys.len() + 1,
            c.seen == (if rel == REL_MISC {
                1int
            } else {
                0int
            }),
    {
        let mut pending: Vec<u16> = Vec::new();
        let mut i: usize = 0;
        while i < keys.len()
            invariant
                i <= keys.len(),
                pending@ == keys@.take(i as int),
            decreases keys.len() - i,
        {
            pending.push(keys[i]);
            i = i + 1;
            assert(pending@ =~= keys@.take(i as int));
        }
        assert(keys@.take(keys.len() as int) =~= keys@);
        let seen: usize = if rel == REL_MISC {
            1
        } else {
            0
        };
        Confirmation { pending_rel: rel, pending_keys: pending, seen, needed: keys.len() + 1 }
    }

    /// Takes one event from the candidate device into account: a movement on
    /// the pending axis counts it as seen, and a key event of a pending key
    /// counts every pending copy of that key as seen. Returns whether the
    /// device is now confirmed.
    pub fn observe(&mut self, ev: InputEvent) -> (confirmed: bool)
        requires
            old(self).wf(),
        ensures
            final(self).wf(),
            final(self).needed == old(self).needed,
            final(self).pending_rel == (if ev.event_type == EV_REL && ev.code == old(
                self,
            ).pending_rel {
                REL_MISC
            } else {
                old(self).pending_rel
            }),
            final(self).pending_keys@ == (if ev.event_type == EV_KEY {
                old(self).pending_keys@.filter(other_than(ev.code))
            } else {
                old(self).pending_keys@
            }),
            confirmed == final(self).done(),
            confirmed <==> (final(self).pending_keys.len() == 0 && final(self).pending_rel
                == REL_MISC),
    {
        if ev.event_type == EV_REL {
            if self.pending_rel != REL_MISC {
                if ev.code == self.pending_rel {
                    self.seen = self.seen + 1;
                    self.pending_rel = REL_MISC;
                }
            }
        }
        if ev.event_type == EV_KEY {
            let ghost old_keys = self.pending_keys@;
            let mut rem: Vec<u16> = Vec::new();
            let mut removed: usize = 0;
            let mut i: usize = 0;
            while i < self.pending_keys.len()
                invariant
                    i <= self.pending_keys.len(),
                    self.pending_keys@ == old_keys,
                    rem@ == old_keys.take(i as int).filter(other_than(ev.code)),
                    removed + rem.len() == i,
                decreases self.pending_keys.len() - i,
            {
                proof {
                    reveal(Seq::filter);
                }
                let ghost next = old_keys.take(i + 1);
                assert(next.drop_last() =~= old_keys.take(i as int));
                assert(next.last() == old_keys[i as int]);
                assert(next.len() == i + 1);
                if self.pending_keys[i] == ev.code {
                    assert(!other_than(ev.code)(next.last()));
                    removed = removed + 1;
                } else {
                    assert(other_than(ev.code)(next.last()));
                    rem.push(self.pending_keys[i]);
                }
                assert(rem@ == next.filter(other_than(ev.code)));
                i = i + 1;
            }
            assert(old_keys.take(old_keys.len() as int) =~= old_keys);
            self.seen = self.seen + removed;
            self.pending_keys = rem;
        }
        self.seen == self.needed
    }
}

/// What is still pending, as (axis, keys), after the events `evs` of a
/// candidate device, starting from axis `rel` and keys `keys`; this follows
/// `Confirmation::observe` event by event.
pub open spec fn pending_after(rel: u16, keys: Seq<u16>, evs: Seq<InputEvent>) -> (u16, Seq<u16>)
    decreases evs.len(),
{
    if evs.len() == 0 {
        (rel, keys)
    } else {
        let (r, ks) = pending_after(rel, keys, evs.drop_last());
        let ev = evs.last();
        let r1 = if ev.event_type == EV_REL && ev.code == r {
            REL_MISC
        } else {
            r
        };
        let ks1 = if ev.event_type == EV_KEY {
            ks.filter(other_than(ev.code))
        } else {
            ks
        };
        (r1, ks1)
    }
}

/// Whether `evs` holds a key event of `code`.
pub open spec fn has_key_event(evs: Seq<InputEvent>, code: u16) -> bool {
    exists|j: int| 0 <= j < evs.len() && (#[trigger] evs[j]).event_type == EV_KEY && evs[j].code == code
}

/// Whether `evs` holds a movement on axis `rel`.
pub open spec fn has_rel_event(evs: Seq<InputEvent>, rel: u16) -> bool {
    exists|j: int| 0 <= j < evs.len() && (#[trigger] evs[j]).event_type == EV_REL && evs[j].code == rel
}

proof fn lemma_pending_after(rel: u16, keys: Seq<u16>, evs: Seq<InputEvent>)
    ensures
        ({
            let (r, ks) = pending_after(rel, keys, evs);
            &&& (r == rel || r == REL_MISC)
            &&& has_rel_event(evs, rel) ==> r == REL_MISC
            &&& forall|x: u16| #[trigger] ks.contains(x) ==> keys.contains(x) && !has_key_event(evs, x)
        }),
    decreases evs.len(),
{
    if evs.len() > 0 {
        let prev = evs.drop_last();
        lemma_pending_after(rel, keys, prev);
        let (r0, ks0) = pending_after(rel, keys, prev);
        let (r, ks) = pending_after(rel, keys, evs);
        let ev = evs.last();
        if has_rel_event(evs, rel) {
            let j = choose|j: int| 0 <= j < evs.len() && (#[trigger] evs[j]).event_type == EV_REL && evs[j].code == rel;
            if j < evs.len() - 1 {
                assert(prev[j] == evs[j]);
                assert(has_rel_event(prev, rel));
            }
        }
        assert forall|x: u16| #[trigger] ks.contains(x) implies keys.contains(x) && !has_key_event(evs, x) by {
            if ev.event_type == EV_KEY {
                let i = choose|i: int| 0 <= i < ks.len() && ks[i] == x;
                broadcast use vstd::seq_lib::group_filter_ensures;
                assert(ks0.filter(other_than(ev.code)).contains(x));
                ks0.lemma_filter_contains_rev(other_than(ev.code), x);
                assert(ks0.contains(x));
                assert(other_than(ev.code)(x));
            }
            assert(ks0.contains(x));
            if has_key_event(evs, x) {
                let j = choose|j: int| 0 <= j < evs.len() && (#[trigger] evs[j]).event_type == EV_KEY && evs[j].code == x;
                if j < evs.len() - 1 {
                    assert(prev[j] == evs[j]);
                    assert(has_key_event(prev, x));
                }
            }
        }
    }
}

/// A candidate device is confirmed once the required axis has been moved (or
/// none was required) and every required key has produced a key event, in any
/// order and mixed with any other events.
pub proof fn law_all_inputs_seen_confirms(rel: u16, keys: Seq<u16>, evs: Seq<InputEvent>)
    requires
        rel == REL_MISC || has_rel_event(evs, rel),
        forall|i: int| 0 <= i < keys.len() ==> has_key_event(evs, #[trigger] keys[i]),
    ensures
        pending_after(rel, keys, evs).0 == REL_MISC,
        pending_after(rel, keys, evs).1.len() == 0,
{
    lemma_pending_after(rel, keys, evs);
    let ks = pending_after(rel, keys, evs).1;
    if ks.len() > 0 {
        assert(ks.contains(ks[0]));
        let x = ks[0];
        let i = choose|i: int| 0 <= i < keys.len() && keys[i] == x;
        assert(has_key_event(evs, keys[i]));
    }
}

/// A required key that has produced no key event stays pending, so the
/// device is not confirmed.
pub proof fn law_missing_key_blocks(rel: u16, keys: Seq<u16>, evs: Seq<InputEvent>, k: u16)
    requires
        keys.contains(k),
        !has_key_event(evs, k),
    ensures
        pending_after(rel, keys, evs).1.contains(k),
    decreases evs.len(),
{
    if evs.len() > 0 {
        let prev = evs.drop_last();
        if has_key_event(prev, k) {
            let j = choose|j: int| 0 <= j < prev.len() && (#[trigger] prev[j]).event_type == EV_KEY && prev[j].code == k;
            assert(evs[j] == prev[j]);
        }
        law_missing_key_blocks(rel, keys, prev, k);
        let ev = evs.last();
        let ks0 = pending_after(rel, keys, prev).1;
        if ev.event_type == EV_KEY {
            assert(evs[evs.len() - 1] == ev);
            assert(ev.code != k);
            let i = choose|i: int| 0 <= i < ks0.len() && ks0[i] == k;
            broadcast use vstd::seq_lib::group_filter_ensures;
            assert(other_than(ev.code)(ks0[i]));
        }
    }
}

/// A required axis that has not been moved stays pending, so the device is
/// not confirmed.
pub proof fn law_unmoved_axis_blocks(rel: u16, keys: Seq<u16>, evs: Seq<InputEvent>)
    requires
        rel != REL_MISC,
        !has_rel_event(evs, rel),
    ensures
        pending_after(rel, keys, evs).0 == rel,
    decreases evs.len(),
{
    if evs.len() > 0 {
        let prev = evs.drop_last();
        if has_rel_event(prev, rel) {
            let j = choose|j: int| 0 <= j < prev.len() && (#[trigger] prev[j]).event_type == EV_REL && prev[j].code == rel;
            assert(evs[j] == prev[j]);
        }
        law_unmoved_axis_blocks(rel, keys, prev);
        assert(evs[evs.len() - 1] == evs.last());
    }
}

} // verus!
