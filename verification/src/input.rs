//! The state of the input devices at the time of an event.

use crate::color::Color;
use crate::geometry::Point;
use vstd::prelude::*;

verus! {

#[derive(Clone, Copy, Debug, PartialEq, Eq, Hash, Structural)]
pub enum Key {
    Shift,
    Alt,
    Control,
    Enter,
    Escape,
    Delete,
    Backspace,
    ArrowUp,
    ArrowRight,
    ArrowDown,
    ArrowLeft,
    KeyA,
    KeyG,
    KeyR,
    KeyS,
}

/// The keys that are held down.
#[derive(Debug, PartialEq, Eq)]
pub struct KeyStates {
    pub pressed: Vec<Key>,
}

impl KeyStates {
    pub open spec fn spec_get(&self, key: Key) -> bool {
        self.pressed@.contains(key)
    }

    /// Whether the key is held down.
    #[verifier::when_used_as_spec(spec_get)]
    pub fn get(&self, key: Key) -> (down: bool)
        ensures
            down == self.spec_get(key),
    {
        let mut i: usize = 0;
        while i < self.pressed.len()
            invariant
                i <= self.pressed@.len(),
                forall|j: int| 0 <= j < i ==> self.pressed@[j] != key,
            decreases self.pressed@.len() - i,
        {
            if self.pressed[i] == key {
                return true;
            }
            i += 1;
        }
        false
    }
}

#[derive(Clone, Copy, Debug, PartialEq, Eq)]
pub struct MouseState {
    /// The pointer, resolved into document space.
    pub position: Point,
}

#[derive(Debug, PartialEq, Eq)]
pub struct InputPreprocessor {
    pub keyboard: KeyStates,
    pub mouse: MouseState,
}

/// The working colours that all tools share.
#[derive(Clone, Copy, Debug, PartialEq, Eq)]
pub struct DocumentToolData {
    pub primary_color: Color,
    pub secondary_color: Color,
}

} // verus!
