//! Logical keys, snapshots of the keyboard, and the gestures that a snapshot
//! shows.

use vstd::prelude::*;

verus! {

/// The highest digit that selects a monitor directly.
pub const LAST_DIGIT: u8 = 9;

/// A logical key, as far as the hotkeys tell keys apart.
#[derive(Clone, Copy, Debug, PartialEq, Eq, Hash, Structural)]
pub enum Key {
    /// The left key of the modifier class.
    LeftControl,
    /// The right key of the modifier class.
    RightControl,
    /// The letter that, held with the modifier, cycles to the next monitor.
    CycleLetter,
    /// A digit key of the main row, by its digit.
    Digit(u8),
    /// Any other key.
    Other,
}

/// What the hotkeys can ask for.
#[derive(Clone, Copy, Debug, PartialEq, Eq, Hash, Structural)]
pub enum Gesture {
    /// Modifier and letter: go to the monitor after the pointer's.
    Cycle,
    /// Modifier and a digit `1..=9`: go to the monitor with that number.
    Select(u8),
}

impl Gesture {
    /// The key whose press triggers the gesture and whose release ends its
    /// suppression.
    pub open spec fn trigger(self) -> Key {
        match self {
            Gesture::Cycle => Key::CycleLetter,
            Gesture::Select(digit) => Key::Digit(digit),
        }
    }

    /// The gesture's place in the order in which one tick evaluates
    /// gestures: the cycle gesture first, then the digits ascending.
    pub open spec fn slot(self) -> int {
        match self {
            Gesture::Cycle => 0,
            Gesture::Select(digit) => digit as int,
        }
    }

    /// The gesture evaluated at a slot `0..=9`.
    pub open spec fn at(slot: int) -> Gesture {
        if slot == 0 {
            Gesture::Cycle
        } else {
            Gesture::Select(slot as u8)
        }
    }

    /// The trigger key of this gesture.
    #[verifier::when_used_as_spec(trigger)]
    pub fn trigger_key(self) -> (key: Key)
        ensures
            key == self.trigger(),
    {
        match self {
            Gesture::Cycle => Key::CycleLetter,
            Gesture::Select(digit) => Key::Digit(digit),
        }
    }
}

/// A key of the modifier class is among the pressed keys.
pub open spec fn modifier_held(pressed: Set<Key>) -> bool {
    pressed.contains(Key::LeftControl) || pressed.contains(Key::RightControl)
}

/// The pressed keys show the gesture: the modifier together with the
/// gesture's trigger key.
pub open spec fn shows(pressed: Set<Key>, gesture: Gesture) -> bool {
    modifier_held(pressed) && pressed.contains(gesture.trigger())
}

/// `slot` is the first slot from `from` on, up to the last digit, whose
/// gesture the pressed keys show.
pub open spec fn is_first_shown(pressed: Set<Key>, from: int, slot: int) -> bool {
    &&& 0 <= from <= slot <= LAST_DIGIT
    &&& shows(pressed, Gesture::at(slot))
    &&& forall|earlier: int| from <= earlier < slot ==> !shows(pressed, #[trigger] Gesture::at(earlier))
}

/// The next gesture to evaluate in a tick whose snapshot is `pressed`, when
/// the slots before `from` are done: the first gesture shown at a slot from
/// `from` on, or none.
pub open spec fn next_shown(pressed: Set<Key>, from: int) -> Option<Gesture> {
    if exists|slot: int| is_first_shown(pressed, from, slot) {
        Some(Gesture::at(choose|slot: int| is_first_shown(pressed, from, slot)))
    } else {
        None
    }
}

/// The first shown slot, where there is one, gives the next gesture.
pub proof fn lemma_first_shown_is_next(pressed: Set<Key>, from: int, slot: int)
    requires
        is_first_shown(pressed, from, slot),
    ensures
        next_shown(pressed, from) == Some(Gesture::at(slot)),
{
}

/// The set of keys that were down at one instant. Two snapshots are equal
/// when the same keys were down, in whatever order they are listed.
#[derive(Debug)]
pub struct KeySnapshot {
    keys: Vec<Key>,
}

impl View for KeySnapshot {
    type V = Set<Key>;

    closed spec fn view(&self) -> Set<Key> {
        self.keys@.to_set()
    }
}

impl PartialEq for KeySnapshot {
    fn eq(&self, other: &KeySnapshot) -> (equal: bool) {
        let equal = self.within(other) && other.within(self);
        assert(equal == (self@ =~= other@));
        equal
    }
}

impl Eq for KeySnapshot {

}

impl vstd::std_specs::cmp::PartialEqSpecImpl for KeySnapshot {
    open spec fn obeys_eq_spec() -> bool {
        true
    }

    open spec fn eq_spec(&self, other: &KeySnapshot) -> bool {
        self@ == other@
    }
}

impl KeySnapshot {
    /// A snapshot of the given pressed keys. Order and repetition do not
    /// matter.
    pub fn from_keys(keys: Vec<Key>) -> (snapshot: KeySnapshot)
        ensures
            snapshot@ == keys@.to_set(),
    {
        KeySnapshot { keys }
    }

    /// Whether `key` was down.
    pub fn contains(&self, key: Key) -> (down: bool)
        ensures
            down == self@.contains(key),
    {
        let mut i: usize = 0;
        while i < self.keys.len()
            invariant
                i <= self.keys@.len(),
                forall|j: int| 0 <= j < i ==> self.keys@[j] != key,
            decreases self.keys@.len() - i,
        {
            if self.keys[i] == key {
                return true;
            }
            i += 1;
        }
        false
    }

    /// Whether every key that was down here was down in `other` too.
    pub fn within(&self, other: &KeySnapshot) -> (all: bool)
        ensures
            all == self@.subset_of(other@),
    {
        let mut i: usize = 0;
        while i < self.keys.len()
            invariant
                i <= self.keys@.len(),
                forall|j: int| 0 <= j < i ==> other@.contains(self.keys@[j]),
            decreases self.keys@.len() - i,
        {
            if !other.contains(self.keys[i]) {
                assert(self@.contains(self.keys@[i as int]));
                return false;
            }
            i += 1;
        }
        true
    }

    /// Whether the left or the right modifier key was down.
    pub fn modifier_held(&self) -> (held: bool)
        ensures
            held == modifier_held(self@),
    {
        self.contains(Key::LeftControl) || self.contains(Key::RightControl)
    }

    /// Whether the snapshot shows `gesture`.
    pub fn shows(&self, gesture: Gesture) -> (shown: bool)
        ensures
            shown == shows(self@, gesture),
    {
        self.modifier_held() && self.contains(gesture.trigger_key())
    }

    /// The first gesture that the snapshot shows at a slot from `from` on,
    /// in the order cycle, digit 1, ..., digit 9.
    pub fn next_gesture(&self, from: u8) -> (next: Option<Gesture>)
        ensures
            next == next_shown(self@, from as int),
            next matches Some(gesture) ==> gesture == Gesture::at(gesture.slot()) && is_first_shown(
                self@,
                from as int,
                gesture.slot(),
            ),
            next is None ==> forall|slot: int|
                from <= slot <= LAST_DIGIT ==> !shows(self@, #[trigger] Gesture::at(slot)),
    {
        if !self.modifier_held() {
            assert forall|slot: int| !is_first_shown(self@, from as int, slot) by {}
            return None;
        }
        let mut slot: u8 = from;
        while slot <= LAST_DIGIT
            invariant
                from <= slot,
                modifier_held(self@),
                forall|earlier: int| from <= earlier < slot ==> !shows(self@, #[trigger] Gesture::at(earlier)),
            decreases LAST_DIGIT + 1 - slot,
        {
            let gesture = if slot == 0 {
                Gesture::Cycle
            } else {
                Gesture::Select(slot)
            };
            if self.contains(gesture.trigger_key()) {
                proof {
                    lemma_first_shown_is_next(self@, from as int, slot as int);
                }
                return Some(gesture);
            }
            slot += 1;
        }
        assert forall|s: int| !is_first_shown(self@, from as int, s) by {}
        None
    }
}

} // verus!
