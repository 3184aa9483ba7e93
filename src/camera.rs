//! The free-flying camera of the sound demo.
use vstd::prelude::*;
use crate::input::{Key, KeyEvent};

verus! {

/// How far the camera travels per second, in scene units.
pub const CAMERA_SPEED: u32 = 5;

/// Which movement keys are held.
#[derive(Clone, Copy, Debug, PartialEq, Eq, Structural)]
pub struct CameraController {
    pub move_forward: bool,
    pub move_backward: bool,
    pub move_left: bool,
    pub move_right: bool,
}

/// The direction of travel as a combination of the camera's look vector and
/// side vector: `look` and `side` are each -1, 0 or 1.
#[derive(Clone, Copy, Debug, PartialEq, Eq, Structural)]
pub struct Travel {
    pub look: i32,
    pub side: i32,
}

pub open spec fn flag(b: bool) -> int {
    if b { 1 } else { 0 }
}

impl Travel {
    /// Look and side vectors are orthogonal unit vectors, so the combined
    /// vector can be normalized exactly when one of the two parts is not zero.
    pub open spec fn spec_moves(self) -> bool {
        self.look != 0 || self.side != 0
    }

    pub fn moves(&self) -> (r: bool)
        ensures
            r == self.spec_moves(),
    {
        self.look != 0 || self.side != 0
    }
}

impl CameraController {
    /// W, S, A and D each hold whether their key is down.
    pub open spec fn spec_on_key(self, event: KeyEvent) -> CameraController {
        let pressed = event.spec_is_pressed();
        match event.key {
            Key::KeyW => CameraController { move_forward: pressed, ..self },
            Key::KeyS => CameraController { move_backward: pressed, ..self },
            Key::KeyA => CameraController { move_left: pressed, ..self },
            Key::KeyD => CameraController { move_right: pressed, ..self },
            _ => self,
        }
    }

    pub fn new() -> (r: CameraController)
        ensures
            !r.move_forward,
            !r.move_backward,
            !r.move_left,
            !r.move_right,
    {
        CameraController {
            move_forward: false,
            move_backward: false,
            move_left: false,
            move_right: false,
        }
    }

    pub fn on_key(&mut self, event: KeyEvent)
        ensures
            *final(self) == old(self).spec_on_key(event),
    {
        let pressed = event.is_pressed();
        match event.key {
            Key::KeyW => self.move_forward = pressed,
            Key::KeyS => self.move_backward = pressed,
            Key::KeyA => self.move_left = pressed,
            Key::KeyD => self.move_right = pressed,
            _ => {},
        }
    }

    /// Forward adds the look vector and backward subtracts it; left adds the
    /// side vector and right subtracts it.
    pub fn travel(&self) -> (r: Travel)
        ensures
            r.look == flag(self.move_forward) - flag(self.move_backward),
            r.side == flag(self.move_left) - flag(self.move_right),
    {
        let mut look: i32 = 0;
        let mut side: i32 = 0;
        if self.move_forward {
            look = look + 1;
        }
        if self.move_backward {
            look = look - 1;
        }
        if self.move_left {
            side = side + 1;
        }
        if self.move_right {
            side = side - 1;
        }
        Travel { look, side }
    }
}

} // verus!
