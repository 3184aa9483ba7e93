//! The 2D platformer: a player body driven by three keys, and a start menu.
use vstd::prelude::*;
use crate::handle::Handle;
use crate::input::{Key, KeyEvent};

verus! {

/// Horizontal speed of the player while a direction key is held.
pub const RUN_SPEED: i32 = 3;

/// Vertical speed given to the player while the jump key is held.
pub const JUMP_SPEED: i32 = 4;

/// Index of the running animation in the player's animation list.
pub const RUN_ANIMATION: u32 = 0;

/// Index of the idle animation in the player's animation list.
pub const IDLE_ANIMATION: u32 = 1;

/// What to do with the vertical part of the body's velocity.
#[derive(Clone, Copy, Debug, PartialEq, Eq, Structural)]
pub enum Vertical {
    /// Set it to `JUMP_SPEED`.
    Jump,
    /// Leave it as the physics left it.
    Keep,
}

/// What to do with the sign of the sprite's horizontal scale.
#[derive(Clone, Copy, Debug, PartialEq, Eq, Structural)]
pub enum Mirror {
    Keep,
    /// Make the horizontal scale positive.
    Positive,
    /// Make the horizontal scale negative.
    Negative,
}

/// The outcome of one simulation tick for the player's body.
#[derive(Clone, Copy, Debug, PartialEq, Eq, Structural)]
pub struct Motion {
    pub x_speed: i32,
    pub vertical: Vertical,
    pub mirror: Mirror,
}

/// Input state of the platformer's player and the animation it plays.
#[derive(Clone, Copy, Debug, PartialEq, Eq, Structural)]
pub struct Player {
    pub move_left: bool,
    pub move_right: bool,
    pub jump: bool,
    pub current_animation: u32,
}

/// Left wins over right when both keys are held; a positive speed moves left.
pub open spec fn spec_x_speed(move_left: bool, move_right: bool) -> i32 {
    if move_left {
        RUN_SPEED
    } else if move_right {
        (-RUN_SPEED) as i32
    } else {
        0
    }
}

/// The sprite faces against its speed: copying the sign of `-x_speed`.
pub open spec fn spec_mirror(x_speed: i32) -> Mirror {
    if x_speed > 0 {
        Mirror::Negative
    } else if x_speed < 0 {
        Mirror::Positive
    } else {
        Mirror::Keep
    }
}

pub open spec fn spec_animation_for(x_speed: i32) -> u32 {
    if x_speed != 0 {
        RUN_ANIMATION
    } else {
        IDLE_ANIMATION
    }
}

impl Player {
    /// The player's state after a key event: A drives `move_left`, D
    /// `move_right` and Space `jump`; each holds whether its key is down.
    pub open spec fn spec_on_key(self, event: KeyEvent) -> Player {
        let pressed = event.spec_is_pressed();
        match event.key {
            Key::KeyA => Player { move_left: pressed, ..self },
            Key::KeyD => Player { move_right: pressed, ..self },
            Key::Space => Player { jump: pressed, ..self },
            _ => self,
        }
    }

    pub open spec fn spec_motion(self) -> Motion {
        let x_speed = spec_x_speed(self.move_left, self.move_right);
        Motion {
            x_speed,
            vertical: if self.jump { Vertical::Jump } else { Vertical::Keep },
            mirror: spec_mirror(x_speed),
        }
    }

    /// A player with no key held, showing the first animation.
    pub fn new() -> (r: Player)
        ensures
            !r.move_left,
            !r.move_right,
            !r.jump,
            r.current_animation == 0,
    {
        Player { move_left: false, move_right: false, jump: false, current_animation: 0 }
    }

    pub fn on_key(&mut self, event: KeyEvent)
        ensures
            *final(self) == old(self).spec_on_key(event),
    {
        let pressed = event.is_pressed();
        match event.key {
            Key::KeyA => self.move_left = pressed,
            Key::KeyD => self.move_right = pressed,
            Key::Space => self.jump = pressed,
            _ => {},
        }
    }

    pub fn x_speed(&self) -> (r: i32)
        ensures
            r == spec_x_speed(self.move_left, self.move_right),
    {
        if self.move_left {
            RUN_SPEED
        } else if self.move_right {
            -RUN_SPEED
        } else {
            0
        }
    }

    /// One tick: picks the running or idle animation and says how the body
    /// and its sprite move.
    pub fn on_update(&mut self) -> (r: Motion)
        ensures
            r == old(self).spec_motion(),
            *final(self) == (Player {
                current_animation: spec_animation_for(r.x_speed),
                ..*old(self)
            }),
    {
        let x_speed = self.x_speed();
        if x_speed != 0 {
            self.current_animation = RUN_ANIMATION;
        } else {
            self.current_animation = IDLE_ANIMATION;
        }
        let vertical = if self.jump { Vertical::Jump } else { Vertical::Keep };
        let mirror = if x_speed > 0 {
            Mirror::Negative
        } else if x_speed < 0 {
            Mirror::Positive
        } else {
            Mirror::Keep
        };
        Motion { x_speed, vertical, mirror }
    }

    /// The index of the animation to advance, among `animation_count` of them,
    /// if the current one exists.
    pub fn active_animation(&self, animation_count: usize) -> (r: Option<usize>)
        ensures
            r == (if (self.current_animation as int) < animation_count {
                Some(self.current_animation as usize)
            } else {
                None::<usize>
            }),
    {
        if (self.current_animation as usize) < animation_count {
            Some(self.current_animation as usize)
        } else {
            None
        }
    }
}

/// What the start menu asks of the engine after a button click.
#[derive(Clone, Copy, Debug, PartialEq, Eq, Structural)]
pub enum MenuAction {
    /// Hide the whole menu and let the game run.
    HideMenu,
    /// Close the window.
    Exit,
    Nothing,
}

/// The platformer's plugin state: the loaded scene and the menu's widgets.
#[derive(Clone, Copy, Debug, PartialEq, Eq, Structural)]
pub struct Game {
    pub scene: Handle,
    pub debug_text: Handle,
    pub new_game: Handle,
    pub exit: Handle,
}

impl Game {
    pub open spec fn spec_on_click(self, destination: Handle) -> MenuAction {
        if destination == self.new_game {
            MenuAction::HideMenu
        } else if destination == self.exit {
            MenuAction::Exit
        } else {
            MenuAction::Nothing
        }
    }

    /// A game with no scene and no menu yet.
    pub fn new() -> (r: Game)
        ensures
            r.scene.spec_is_none(),
            r.debug_text.spec_is_none(),
            r.new_game.spec_is_none(),
            r.exit.spec_is_none(),
    {
        Game {
            scene: Handle::none(),
            debug_text: Handle::none(),
            new_game: Handle::none(),
            exit: Handle::none(),
        }
    }

    /// Records the menu's widgets once the menu has been loaded.
    pub fn on_menu_loaded(&mut self, new_game: Handle, exit: Handle, debug_text: Handle)
        ensures
            *final(self) == (Game { new_game, exit, debug_text, ..*old(self) }),
    {
        self.new_game = new_game;
        self.exit = exit;
        self.debug_text = debug_text;
    }

    pub fn on_scene_loaded(&mut self, scene: Handle)
        ensures
            *final(self) == (Game { scene, ..*old(self) }),
    {
        self.scene = scene;
    }

    /// A click on "new game" hides the menu; one on "exit" closes the window.
    pub fn on_click(&self, destination: Handle) -> (r: MenuAction)
        ensures
            r == self.spec_on_click(destination),
    {
        if destination == self.new_game {
            MenuAction::HideMenu
        } else if destination == self.exit {
            MenuAction::Exit
        } else {
            MenuAction::Nothing
        }
    }
}

} // verus!
