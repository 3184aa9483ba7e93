//! The widget gallery: a model whose scale and turn follow two sliders, a
//! few buttons, a renderer settings inspector, and grids of pictures.
use vstd::prelude::*;
use crate::handle::Handle;

verus! {

/// Columns and rows of the chest picture sheet.
pub const CHEST_COLUMNS: usize = 8;

pub const CHEST_ROWS: usize = 6;

/// Columns and rows of the armour picture sheet shown in the tree.
pub const ARMOUR_COLUMNS: usize = 9;

pub const ARMOUR_ROWS: usize = 19;

/// The widgets whose messages the gallery listens to.
#[derive(Clone, Copy, Debug, PartialEq, Eq, Structural)]
pub struct Interface {
    pub debug_text: Handle,
    pub yaw: Handle,
    pub scale: Handle,
    pub reset: Handle,
    pub quality_inspector: Handle,
    pub press_me_button: Handle,
    pub message_box: Handle,
}

/// The kinds of UI message that the gallery reacts to.
#[derive(Clone, Copy, Debug, PartialEq, Eq, Structural)]
pub enum UiEvent {
    /// A scroll bar's value changed; `from_widget` tells whether the widget
    /// reports it, rather than being told.
    ScrollBarValue { from_widget: bool },
    ButtonClick,
    /// A property was edited in an inspector.
    PropertyChanged,
    MessageBoxClose,
    Other,
}

/// What the gallery asks of the engine for one UI message.
#[derive(Clone, Copy, Debug, PartialEq, Eq, Structural)]
pub enum GalleryAction {
    Nothing,
    /// Give the model the slider's value as its uniform scale.
    ScaleModel,
    /// Turn the model about the vertical axis by the slider's value, in degrees.
    TurnModel,
    /// Put both sliders back to their initial values.
    ResetSliders { scale: Handle, yaw: Handle },
    /// Build a message box and open it.
    OpenMessageBox,
    /// Apply the edited property to the renderer's quality settings.
    ApplyQualitySetting,
    /// Remove the closed message box from the interface.
    RemoveMessageBox { target: Handle },
}

/// The gallery's plugin state.
#[derive(Clone, Copy, Debug, PartialEq, Eq, Structural)]
pub struct Game {
    pub scene: Handle,
    pub interface: Option<Interface>,
    pub paladin: Handle,
}

pub open spec fn spec_route(ui: Interface, destination: Handle, event: UiEvent, model_present: bool, graphics_ready: bool) -> GalleryAction {
    match event {
        UiEvent::ScrollBarValue { from_widget } => {
            if from_widget && model_present && destination == ui.scale {
                GalleryAction::ScaleModel
            } else if from_widget && model_present && destination == ui.yaw {
                GalleryAction::TurnModel
            } else {
                GalleryAction::Nothing
            }
        },
        UiEvent::ButtonClick => {
            if destination == ui.reset {
                GalleryAction::ResetSliders { scale: ui.scale, yaw: ui.yaw }
            } else if destination == ui.press_me_button {
                GalleryAction::OpenMessageBox
            } else {
                GalleryAction::Nothing
            }
        },
        UiEvent::PropertyChanged => {
            if graphics_ready && destination == ui.quality_inspector {
                GalleryAction::ApplyQualitySetting
            } else {
                GalleryAction::Nothing
            }
        },
        UiEvent::MessageBoxClose => {
            if destination == ui.message_box {
                GalleryAction::RemoveMessageBox { target: ui.message_box }
            } else {
                GalleryAction::Nothing
            }
        },
        UiEvent::Other => GalleryAction::Nothing,
    }
}

impl Game {
    pub fn new() -> (r: Game)
        ensures
            r.scene.spec_is_none(),
            r.interface is None,
            r.paladin.spec_is_none(),
    {
        Game { scene: Handle::none(), interface: None, paladin: Handle::none() }
    }

    /// The interface is built once the renderer is ready.
    pub fn on_graphics_context_initialized(&mut self, interface: Interface)
        ensures
            *final(self) == (Game { interface: Some(interface), ..*old(self) }),
    {
        self.interface = Some(interface);
    }

    /// Records the message box built for `OpenMessageBox`; no box is
    /// recorded before the interface exists.
    pub fn on_message_box_built(&mut self, message_box: Handle)
        ensures
            *final(self) == (match old(self).interface {
                Some(ui) => Game { interface: Some(Interface { message_box, ..ui }), ..*old(self) },
                None => *old(self),
            }),
    {
        match self.interface {
            Some(ui) => {
                self.interface = Some(Interface { message_box, ..ui });
            },
            None => {},
        }
    }

    /// Sliders report their values to the model while it is in the scene
    /// (`model_present`); the reset button puts the sliders back; the other
    /// button opens a message box, which is removed once closed; an edit in
    /// the inspector goes to the renderer once it is ready (`graphics_ready`).
    pub fn on_ui_message(&self, destination: Handle, event: UiEvent, model_present: bool, graphics_ready: bool) -> (r: GalleryAction)
        ensures
            r == (match self.interface {
                Some(ui) => spec_route(ui, destination, event, model_present, graphics_ready),
                None => GalleryAction::Nothing,
            }),
    {
        let ui = match self.interface {
            Some(ui) => ui,
            None => {
                return GalleryAction::Nothing;
            },
        };
        match event {
            UiEvent::ScrollBarValue { from_widget } => {
                if from_widget && model_present && destination == ui.scale {
                    GalleryAction::ScaleModel
                } else if from_widget && model_present && destination == ui.yaw {
                    GalleryAction::TurnModel
                } else {
                    GalleryAction::Nothing
                }
            },
            UiEvent::ButtonClick => {
                if destination == ui.reset {
                    GalleryAction::ResetSliders { scale: ui.scale, yaw: ui.yaw }
                } else if destination == ui.press_me_button {
                    GalleryAction::OpenMessageBox
                } else {
                    GalleryAction::Nothing
                }
            },
            UiEvent::PropertyChanged => {
                if graphics_ready && destination == ui.quality_inspector {
                    GalleryAction::ApplyQualitySetting
                } else {
                    GalleryAction::Nothing
                }
            },
            UiEvent::MessageBoxClose => {
                if destination == ui.message_box {
                    GalleryAction::RemoveMessageBox { target: ui.message_box }
                } else {
                    GalleryAction::Nothing
                }
            },
            UiEvent::Other => GalleryAction::Nothing,
        }
    }

    /// Keeps the loaded scene and the model found in it. Where both the model
    /// and the interface exist, returns the yaw and scale sliders, which are
    /// to show the model's turn and scale.
    pub fn on_scene_loaded(&mut self, scene: Handle, paladin: Option<Handle>) -> (r: Option<(Handle, Handle)>)
        ensures
            final(self).scene == scene,
            final(self).interface == old(self).interface,
            final(self).paladin == (match paladin {
                Some(h) => h,
                None => old(self).paladin,
            }),
            r == (match (paladin, old(self).interface) {
                (Some(_), Some(ui)) => Some((ui.yaw, ui.scale)),
                _ => None::<(Handle, Handle)>,
            }),
    {
        self.scene = scene;
        match paladin {
            Some(h) => {
                self.paladin = h;
                match self.interface {
                    Some(ui) => Some((ui.yaw, ui.scale)),
                    None => None,
                }
            },
            None => None,
        }
    }

    /// The text that shows the frame rate, once the interface exists.
    pub fn debug_text(&self) -> (r: Option<Handle>)
        ensures
            r == (match self.interface {
                Some(ui) => Some(ui.debug_text),
                None => None::<Handle>,
            }),
    {
        match self.interface {
            Some(ui) => Some(ui.debug_text),
            None => None,
        }
    }
}

/// Makes the gallery's plugin.
pub struct GameConstructor;

impl GameConstructor {
    pub fn create_instance(&self) -> (r: Game)
        ensures
            r.scene.spec_is_none(),
            r.interface is None,
            r.paladin.spec_is_none(),
    {
        Game::new()
    }
}

/// The number shown on the picture in column `x` of row `y` of a sheet
/// with `columns` columns: pictures are counted row by row.
pub fn picture_number(x: usize, y: usize, columns: usize) -> (r: usize)
    requires
        y * columns + x <= usize::MAX,
    ensures
        r == y * columns + x,
{
    y * columns + x
}

/// The cells of a sheet of `columns` by `rows` pictures as (column, row),
/// row by row.
pub fn sheet_cells(columns: usize, rows: usize) -> (r: Vec<(usize, usize)>)
    requires
        columns * rows <= usize::MAX,
    ensures
        r@.len() == columns * rows,
        forall|k: int|
            0 <= k < r@.len() ==> (#[trigger] r@[k]).0 < columns && r@[k].1 < rows && r@[k].1
                * columns + r@[k].0 == k,
{
    let mut r: Vec<(usize, usize)> = Vec::new();
    let mut y: usize = 0;
    while y < rows
        invariant
            y <= rows,
            columns * rows <= usize::MAX,
            r@.len() == y * columns,
            forall|k: int|
                0 <= k < r@.len() ==> (#[trigger] r@[k]).0 < columns && r@[k].1 < rows && r@[k].1
                    * columns + r@[k].0 == k,
        decreases rows - y,
    {
        let mut x: usize = 0;
        while x < columns
            invariant
                y < rows,
                x <= columns,
                columns * rows <= usize::MAX,
                r@.len() == y * columns + x,
                forall|k: int|
                    0 <= k < r@.len() ==> (#[trigger] r@[k]).0 < columns && r@[k].1 < rows
                        && r@[k].1 * columns + r@[k].0 == k,
            decreases columns - x,
        {
            r.push((x, y));
            x = x + 1;
        }
        assert((y + 1) * columns == y * columns + columns) by (nonlinear_arith);
        y = y + 1;
    }
    assert(y * columns == columns * rows) by (nonlinear_arith)
        requires
            y == rows,
    ;
    r
}

/// The columns of one row of the armour tree. Each item holds the next
/// column as its only child while the column it holds is the first one or
/// lies inside the sheet, so a row goes from column 0 to column
/// `max(1, columns)`.
pub fn tree_row_columns(columns: usize) -> (r: Vec<usize>)
    requires
        columns < usize::MAX,
    ensures
        r@.len() == (if columns >= 1 { columns as int } else { 1 }) + 1,
        forall|k: int| 0 <= k < r@.len() ==> #[trigger] r@[k] == k,
{
    let mut r: Vec<usize> = Vec::new();
    let mut x: usize = 0;
    let mut next: bool = true;
    r.push(x);
    while next
        invariant
            columns < usize::MAX,
            r@.len() == x + 1,
            forall|k: int| 0 <= k < r@.len() ==> #[trigger] r@[k] == k,
            next == (x == 0 || x < columns),
            x <= (if columns >= 1 { columns as int } else { 1 }),
        decreases (if columns >= 1 { columns as int } else { 1 }) - x,
    {
        x = x + 1;
        r.push(x);
        next = x < columns;
    }
    r
}

} // verus!
