//! Input facts delivered by the windowing collaborator.
//!
//! Key presses arrive once per occurrence and are merged into an
//! [`InputEventSet`] before the next tick; `is_key_pressed` is a pure
//! lookup in that set. The set is fnv-hashed, so membership is stated
//! through trusted wrappers around the fnv-backed `HashSet`.

use std::collections::HashSet;
use std::hash::BuildHasherDefault;
use vstd::prelude::*;

verus! {

/// A discrete key identifier.
#[derive(Clone, Copy, PartialEq, Eq, Hash, Structural, Debug)]
pub struct KeyCode(pub u32);

/// A discrete input fact true as of this frame.
#[derive(Clone, Copy, PartialEq, Eq, Hash, Structural, Debug)]
pub enum Event {
    KeyPress(KeyCode),
}

/// Declares fnv's hasher type so it may appear in the set's type; nothing
/// is assumed of the type itself.
#[verifier::external_type_specification]
#[verifier::external_body]
pub struct ExFnvHasher(fnv::FnvHasher);

/// Declares the standard hasher-builder wrapper so it may appear in the
/// set's type; nothing is assumed of the type itself.
#[verifier::external_type_specification]
#[verifier::external_body]
#[verifier::reject_recursive_types(H)]
pub struct ExBuildHasherDefault<H>(BuildHasherDefault<H>);

/// The set of input facts accumulated this frame: unique, unordered,
/// rebuilt or merged each frame by the driver.
pub struct InputEventSet {
    set: HashSet<Event, fnv::FnvBuildHasher>,
}

impl View for InputEventSet {
    type V = Set<Event>;

    closed spec fn view(&self) -> Set<Event> {
        self.set@
    }
}

impl InputEventSet {
    pub fn new() -> (s: Self)
        ensures
            s@ == Set::<Event>::empty(),
    {
        InputEventSet { set: HashSet::default() }
    }

    /// Relies on HashSet::insert together with fnv's deterministic hasher
    /// and the derived Eq/Hash of Event: afterwards the set holds exactly
    /// the old facts plus this one, so a duplicate insert is a no-op.
    #[verifier::external_body]
    pub fn insert(&mut self, event: Event)
        ensures
            final(self)@ == old(self)@.insert(event),
    {
        self.set.insert(event);
    }

    /// Relies on HashSet::contains together with fnv's deterministic hasher
    /// and the derived Eq/Hash of Event.
    #[verifier::external_body]
    pub fn contains(&self, event: &Event) -> (r: bool)
        ensures
            r == self@.contains(*event),
    {
        self.set.contains(event)
    }
}

/// Key-press visibility: a key reads as pressed exactly when its press
/// event is in the set — never in a fresh (empty) set, and always
/// immediately after that event is inserted, for every key identifier.
pub proof fn lemma_key_press_visibility(events: Set<Event>, key: KeyCode)
    ensures
        !Set::<Event>::empty().contains(Event::KeyPress(key)),
        events.insert(Event::KeyPress(key)).contains(Event::KeyPress(key)),
{
}

} // verus!
