//! Keyboard input as the demos see it.
use vstd::prelude::*;

verus! {

/// The physical keys that some demo reacts to; every other key is `Other`.
#[derive(Clone, Copy, Debug, PartialEq, Eq, Structural)]
pub enum Key {
    KeyW,
    KeyA,
    KeyS,
    KeyD,
    Space,
    ShiftLeft,
    Other,
}

#[derive(Clone, Copy, Debug, PartialEq, Eq, Structural)]
pub enum KeyState {
    Pressed,
    Released,
}

/// A key that went down or up.
#[derive(Clone, Copy, Debug, PartialEq, Eq, Structural)]
pub struct KeyEvent {
    pub key: Key,
    pub state: KeyState,
}

impl KeyEvent {
    pub open spec fn spec_is_pressed(self) -> bool {
        self.state == KeyState::Pressed
    }

    pub fn new(key: Key, state: KeyState) -> (r: KeyEvent)
        ensures
            r.key == key,
            r.state == state,
    {
        KeyEvent { key, state }
    }

    pub fn is_pressed(&self) -> (r: bool)
        ensures
            r == self.spec_is_pressed(),
    {
        match self.state {
            KeyState::Pressed => true,
            KeyState::Released => false,
        }
    }
}

} // verus!
