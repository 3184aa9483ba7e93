//! The third-person animation demo: a character that walks where the keys
//! point, and the loading overlay shown until its scene arrives.
use vstd::prelude::*;
use crate::handle::Handle;
use crate::input::{Key, KeyEvent};

verus! {

/// Walking and running flags of the animated character.
#[derive(Clone, Copy, Debug, PartialEq, Eq, Structural)]
pub struct Player {
    pub walk_forward: bool,
    pub walk_backward: bool,
    pub walk_left: bool,
    pub walk_right: bool,
    pub run: bool,
}

impl Player {
    /// W, S, A, D and left Shift each hold whether their key is down.
    pub open spec fn spec_on_key(self, event: KeyEvent) -> Player {
        let pressed = event.spec_is_pressed();
        match event.key {
            Key::KeyW => Player { walk_forward: pressed, ..self },
            Key::KeyS => Player { walk_backward: pressed, ..self },
            Key::KeyA => Player { walk_left: pressed, ..self },
            Key::KeyD => Player { walk_right: pressed, ..self },
            Key::ShiftLeft => Player { run: pressed, ..self },
            _ => self,
        }
    }

    /// The turn of the model, in degrees, relative to the camera's yaw: a
    /// sideways key decides the side, and forward or backward halve or widen
    /// the turn; left wins over right, forward over backward.
    pub open spec fn spec_facing_degrees(self) -> int {
        if self.walk_left {
            if self.walk_forward {
                45
            } else if self.walk_backward {
                135
            } else {
                90
            }
        } else if self.walk_right {
            if self.walk_forward {
                -45
            } else if self.walk_backward {
                -135
            } else {
                -90
            }
        } else if self.walk_backward {
            180
        } else {
            0
        }
    }

    pub open spec fn spec_is_moving(self) -> bool {
        self.walk_left || self.walk_right || self.walk_forward || self.walk_backward
    }

    pub fn new() -> (r: Player)
        ensures
            !r.walk_forward,
            !r.walk_backward,
            !r.walk_left,
            !r.walk_right,
            !r.run,
    {
        Player {
            walk_forward: false,
            walk_backward: false,
            walk_left: false,
            walk_right: false,
            run: false,
        }
    }

    pub fn on_key(&mut self, event: KeyEvent)
        ensures
            *final(self) == old(self).spec_on_key(event),
    {
        let pressed = event.is_pressed();
        match event.key {
            Key::KeyW => self.walk_forward = pressed,
            Key::KeyS => self.walk_backward = pressed,
            Key::KeyA => self.walk_left = pressed,
            Key::KeyD => self.walk_right = pressed,
            Key::ShiftLeft => self.run = pressed,
            _ => {},
        }
    }

    pub fn facing_degrees(&self) -> (r: i32)
        ensures
            r == self.spec_facing_degrees(),
            -135 <= r <= 180,
    {
        if self.walk_left {
            if self.walk_forward {
                45
            } else if self.walk_backward {
                135
            } else {
                90
            }
        } else if self.walk_right {
            if self.walk_forward {
                -45
            } else if self.walk_backward {
                -135
            } else {
                -90
            }
        } else if self.walk_backward {
            180
        } else {
            0
        }
    }

    /// The value of the state machine's "Moving" rule.
    pub fn is_moving(&self) -> (r: bool)
        ensures
            r == self.spec_is_moving(),
    {
        self.walk_left || self.walk_right || self.walk_forward || self.walk_backward
    }

    /// The value of the state machine's "MoveAnimationIndex" parameter:
    /// 1 (running) while Shift is held, else 0 (walking).
    pub fn move_animation_index(&self) -> (r: usize)
        ensures
            r == (if self.run { 1usize } else { 0usize }),
    {
        if self.run {
            1
        } else {
            0
        }
    }
}

/// A request to give a widget a new size, in pixels.
#[derive(Clone, Copy, Debug, PartialEq, Eq, Structural)]
pub struct Resize {
    pub target: Handle,
    pub width: u32,
    pub height: u32,
}

/// The animation demo's plugin state: the scene and the loading overlay.
#[derive(Clone, Copy, Debug, PartialEq, Eq, Structural)]
pub struct Game {
    pub scene: Handle,
    pub progress_bar: Handle,
    pub overlay_grid: Handle,
    pub debug_text: Handle,
}

impl Game {
    pub fn new() -> (r: Game)
        ensures
            r.scene.spec_is_none(),
            r.progress_bar.spec_is_none(),
            r.overlay_grid.spec_is_none(),
            r.debug_text.spec_is_none(),
    {
        Game {
            scene: Handle::none(),
            progress_bar: Handle::none(),
            overlay_grid: Handle::none(),
            debug_text: Handle::none(),
        }
    }

    /// Records the widgets of the loading overlay once they are built.
    pub fn on_overlay_built(&mut self, overlay_grid: Handle, progress_bar: Handle, debug_text: Handle)
        ensures
            *final(self) == (Game { overlay_grid, progress_bar, debug_text, ..*old(self) }),
    {
        self.overlay_grid = overlay_grid;
        self.progress_bar = progress_bar;
        self.debug_text = debug_text;
    }

    /// The overlay covers the whole window: it follows every new window size.
    pub fn handle_resize(&self, width: u32, height: u32) -> (r: Resize)
        ensures
            r == (Resize { target: self.overlay_grid, width, height }),
    {
        Resize { target: self.overlay_grid, width, height }
    }

    /// Keeps the loaded scene and returns the overlay, which is to be hidden.
    pub fn on_scene_loaded(&mut self, scene: Handle) -> (r: Handle)
        ensures
            *final(self) == (Game { scene, ..*old(self) }),
            r == old(self).overlay_grid,
    {
        self.scene = scene;
        self.overlay_grid
    }
}

} // verus!
