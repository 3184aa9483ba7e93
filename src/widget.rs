//! A hand-made button widget: how it reacts to the mouse.
use vstd::prelude::*;
use crate::handle::Handle;

verus! {

/// What the button tells the outside world.
#[derive(Clone, Copy, Debug, PartialEq, Eq, Structural)]
pub enum MyButtonMessage {
    /// The button was clicked.
    Click,
}

/// An opaque color.
#[derive(Clone, Copy, Debug, PartialEq, Eq, Structural)]
pub struct Rgb {
    pub r: u8,
    pub g: u8,
    pub b: u8,
}

impl Rgb {
    pub fn opaque(r: u8, g: u8, b: u8) -> (c: Rgb)
        ensures
            c == (Rgb { r, g, b }),
    {
        Rgb { r, g, b }
    }
}

pub open spec fn grey(v: u8) -> Rgb {
    Rgb { r: v, g: v, b: v }
}

/// Text color while the pointer is over the button.
pub open spec fn hover_text() -> Rgb {
    grey(220)
}

/// Border color while the pointer is over the button.
pub open spec fn hover_border() -> Rgb {
    grey(140)
}

/// Text color while the pointer is away.
pub open spec fn idle_text() -> Rgb {
    grey(120)
}

/// Border color while the pointer is away.
pub open spec fn idle_border() -> Rgb {
    grey(100)
}

/// The mouse messages that reach the button.
#[derive(Clone, Copy, Debug, PartialEq, Eq, Structural)]
pub enum MouseInput {
    MouseUp,
    MouseDown,
    MouseEnter,
    MouseLeave,
    Other,
}

/// What the button asks of the user interface.
#[derive(Clone, Copy, Debug, PartialEq, Eq, Structural)]
pub enum ButtonReaction {
    Nothing,
    /// Send `message` from `source` to the outside world, then release the
    /// mouse capture.
    Notify { source: Handle, message: MyButtonMessage },
    /// Capture the mouse on `target`.
    CaptureMouse { target: Handle },
    /// Paint the text and the border with these colors.
    Recolor { text: Rgb, border: Rgb },
}

/// The button's own widget and its two parts.
#[derive(Clone, Copy, Debug, PartialEq, Eq, Structural)]
pub struct MyButton {
    pub handle: Handle,
    pub border: Handle,
    pub text: Handle,
}

impl MyButton {
    /// A message concerns the button when it is addressed to the button
    /// itself or to a widget inside it (`in_subtree`).
    pub open spec fn spec_reaction(self, destination: Handle, in_subtree: bool, input: MouseInput) -> ButtonReaction {
        if destination == self.handle || in_subtree {
            match input {
                MouseInput::MouseUp => ButtonReaction::Notify {
                    source: self.handle,
                    message: MyButtonMessage::Click,
                },
                MouseInput::MouseDown => ButtonReaction::CaptureMouse { target: destination },
                MouseInput::MouseEnter => ButtonReaction::Recolor {
                    text: hover_text(),
                    border: hover_border(),
                },
                MouseInput::MouseLeave => ButtonReaction::Recolor {
                    text: idle_text(),
                    border: idle_border(),
                },
                MouseInput::Other => ButtonReaction::Nothing,
            }
        } else {
            ButtonReaction::Nothing
        }
    }

    pub fn new(handle: Handle, border: Handle, text: Handle) -> (r: MyButton)
        ensures
            r == (MyButton { handle, border, text }),
    {
        MyButton { handle, border, text }
    }

    /// A release of the mouse clicks the button, a press captures the mouse,
    /// and entering or leaving brightens or dims it.
    pub fn handle_routed_message(&self, destination: Handle, in_subtree: bool, input: MouseInput) -> (r: ButtonReaction)
        ensures
            r == self.spec_reaction(destination, in_subtree, input),
    {
        if destination == self.handle || in_subtree {
            match input {
                MouseInput::MouseUp => ButtonReaction::Notify {
                    source: self.handle,
                    message: MyButtonMessage::Click,
                },
                MouseInput::MouseDown => ButtonReaction::CaptureMouse { target: destination },
                MouseInput::MouseEnter => ButtonReaction::Recolor {
                    text: Rgb::opaque(220, 220, 220),
                    border: Rgb::opaque(140, 140, 140),
                },
                MouseInput::MouseLeave => ButtonReaction::Recolor {
                    text: Rgb::opaque(120, 120, 120),
                    border: Rgb::opaque(100, 100, 100),
                },
                MouseInput::Other => ButtonReaction::Nothing,
            }
        } else {
            ButtonReaction::Nothing
        }
    }

    /// The foreground of each part: the border first, then the text.
    pub fn foregrounds(&self, text_color: Rgb, border_color: Rgb) -> (r: Vec<(Handle, Rgb)>)
        ensures
            r@ == seq![(self.border, border_color), (self.text, text_color)],
    {
        let r = vec![(self.border, border_color), (self.text, text_color)];
        assert(r@ =~= seq![(self.border, border_color), (self.text, text_color)]);
        r
    }
}

} // verus!
