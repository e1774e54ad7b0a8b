//! A change-tracked value cell.
//!
//! `set` replaces the value and marks it changed; a single draw-time
//! consumer reads it through `execute_on_change`, which yields the value
//! once per dirty transition and clears the flag. Repeated sets between two
//! reads coalesce into one read of the latest value.

use vstd::prelude::*;

verus! {

/// A value with a dirty flag.
pub struct MutCell<T> {
    value: T,
    has_changed: bool,
}

impl<T> MutCell<T> {
    /// The currently stored value.
    pub closed spec fn current(&self) -> T {
        self.value
    }

    /// Whether the value changed since it was last consumed. A fresh cell
    /// counts as changed, so the first consumer sees the initial value.
    pub closed spec fn is_dirty(&self) -> bool {
        self.has_changed
    }

    pub fn new(value: T) -> (c: Self)
        ensures
            c.current() == value,
            c.is_dirty(),
    {
        MutCell { value, has_changed: true }
    }

    /// Replace the value and mark it changed.
    pub fn set(&mut self, value: T)
        ensures
            final(self).current() == value,
            final(self).is_dirty(),
    {
        self.value = value;
        self.has_changed = true;
    }

    /// Yield the value exactly when it changed since the last call, clearing
    /// the flag; the single consumer applies the yielded value once.
    pub fn execute_on_change(&mut self) -> (r: Option<T>) where T: Copy
        ensures
            final(self).current() == old(self).current(),
            !final(self).is_dirty(),
            old(self).is_dirty() ==> r == Some(old(self).current()),
            !old(self).is_dirty() ==> r is None,
    {
        if self.has_changed {
            self.has_changed = false;
            Some(self.value)
        } else {
            None
        }
    }
}

} // verus!
