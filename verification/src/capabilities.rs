//! The capabilities of the merged virtual device, kept in evdev's attribute
//! sets.
use vstd::prelude::*;
use evdev::{AttributeSet, KeyCode, RelativeAxisCode};
use crate::codes::{KEY_COUNT, REL_COUNT};

verus! {

/// A set of key codes, held in an `evdev::AttributeSet<KeyCode>`.
#[verifier::external_body]
pub struct KeySet {
    set: AttributeSet<KeyCode>,
}

/// A set of relative axis codes, held in an
/// `evdev::AttributeSet<RelativeAxisCode>`.
#[verifier::external_body]
pub struct AxisSet {
    set: AttributeSet<RelativeAxisCode>,
}

/// The key codes in a key set.
pub uninterp spec fn key_codes(s: KeySet) -> Set<u16>;

/// The axis codes in an axis set.
pub uninterp spec fn axis_codes(s: AxisSet) -> Set<u16>;

impl KeySet {
    /// Iterates the `AttributeSet<KeyCode>` (`AttributeSetRef::iter`, which
    /// walks the set bits in ascending order) and collects each key's code:
    /// the codes in the set, each once, in ascending order.
    #[verifier::external_body]
    pub fn codes(&self) -> (r: Vec<u16>)
        ensures
            r@.to_set() == key_codes(*self),
            forall|i: int, j: int| 0 <= i < j < r.len() ==> r@[i] < r@[j],
    {
        self.set.iter().map(|k| k.0).collect()
    }

    /// `AttributeSet::<KeyCode>::new`: a set with no key in it.
    #[verifier::external_body]
    pub fn new() -> (s: KeySet)
        ensures
            key_codes(s) == Set::<u16>::empty(),
    {
        KeySet { set: AttributeSet::new() }
    }

    /// `AttributeSetRef::<KeyCode>::insert`: adds `code`. It panics for a
    /// code at or above the number of key codes.
    #[verifier::external_body]
    pub fn insert(&mut self, code: u16)
        requires
            code < KEY_COUNT,
        ensures
            key_codes(*final(self)) == key_codes(*old(self)).insert(code),
    {
        self.set.insert(KeyCode(code))
    }
}

impl AxisSet {
    /// Iterates the `AttributeSet<RelativeAxisCode>` (`AttributeSetRef::iter`,
    /// which walks the set bits in ascending order) and collects each axis's
    /// code: the codes in the set, each once, in ascending order.
    #[verifier::external_body]
    pub fn codes(&self) -> (r: Vec<u16>)
        ensures
            r@.to_set() == axis_codes(*self),
            forall|i: int, j: int| 0 <= i < j < r.len() ==> r@[i] < r@[j],
    {
        self.set.iter().map(|a| a.0).collect()
    }

    /// `AttributeSet::<RelativeAxisCode>::new`: a set with no axis in it.
    #[verifier::external_body]
    pub fn new() -> (s: AxisSet)
        ensures
            axis_codes(s) == Set::<u16>::empty(),
    {
        AxisSet { set: AttributeSet::new() }
    }

    /// `AttributeSetRef::<RelativeAxisCode>::insert`: adds `code`. It panics
    /// for a code at or above the number of axis codes.
    #[verifier::external_body]
    pub fn insert(&mut self, code: u16)
        requires
            code < REL_COUNT,
        ensures
            axis_codes(*final(self)) == axis_codes(*old(self)).insert(code),
    {
        self.set.insert(RelativeAxisCode(code))
    }
}

/// The keys and axes of the merged device: every key of the keyboard and of
/// the mouse, and every axis of the mouse.
pub fn merged_capabilities(k_keys: &Vec<u16>, m_keys: &Vec<u16>, m_axes: &Vec<u16>) -> (r: (
    KeySet,
    AxisSet,
))
    requires
        forall|i: int| 0 <= i < k_keys.len() ==> #[trigger] k_keys@[i] < KEY_COUNT,
        forall|i: int| 0 <= i < m_keys.len() ==> #[trigger] m_keys@[i] < KEY_COUNT,
        forall|i: int| 0 <= i < m_axes.len() ==> #[trigger] m_axes@[i] < REL_COUNT,
    ensures
        key_codes(r.0) == k_keys@.to_set().union(m_keys@.to_set()),
        axis_codes(r.1) == m_axes@.to_set(),
{
    let mut keys = KeySet::new();
    let mut i: usize = 0;
    while i < k_keys.len()
        invariant
            i <= k_keys.len(),
            forall|j: int| 0 <= j < k_keys.len() ==> #[trigger] k_keys@[j] < KEY_COUNT,
            key_codes(keys) == k_keys@.take(i as int).to_set(),
        decreases k_keys.len() - i,
    {
        keys.insert(k_keys[i]);
        assert(k_keys@.take(i + 1) =~= k_keys@.take(i as int).push(k_keys@[i as int]));
        proof {
            k_keys@.take(i as int).lemma_push_to_set_commute(k_keys@[i as int]);
        }
        i = i + 1;
    }
    assert(k_keys@.take(k_keys.len() as int) =~= k_keys@);
    let mut i: usize = 0;
    while i < m_keys.len()
        invariant
            i <= m_keys.len(),
            forall|j: int| 0 <= j < m_keys.len() ==> #[trigger] m_keys@[j] < KEY_COUNT,
            key_codes(keys) == k_keys@.to_set().union(m_keys@.take(i as int).to_set()),
        decreases m_keys.len() - i,
    {
        keys.insert(m_keys[i]);
        assert(m_keys@.take(i + 1) =~= m_keys@.take(i as int).push(m_keys@[i as int]));
        proof {
            m_keys@.take(i as int).lemma_push_to_set_commute(m_keys@[i as int]);
        }
        assert(key_codes(keys) =~= k_keys@.to_set().union(m_keys@.take(i + 1).to_set()));
        i = i + 1;
    }
    assert(m_keys@.take(m_keys.len() as int) =~= m_keys@);
    let mut axes = AxisSet::new();
    let mut i: usize = 0;
    while i < m_axes.len()
        invariant
            i <= m_axes.len(),
            forall|j: int| 0 <= j < m_axes.len() ==> #[trigger] m_axes@[j] < REL_COUNT,
            axis_codes(axes) == m_axes@.take(i as int).to_set(),
        decreases m_axes.len() - i,
    {
        axes.insert(m_axes[i]);
        assert(m_axes@.take(i + 1) =~= m_axes@.take(i as int).push(m_axes@[i as int]));
        proof {
            m_axes@.take(i as int).lemma_push_to_set_commute(m_axes@[i as int]);
        }
        i = i + 1;
    }
    assert(m_axes@.take(m_axes.len() as int) =~= m_axes@);
    (keys, axes)
}

} // verus!
