//! The blend-shape viewer: a head model turned by two keys, and one slider
//! per blend shape of its mesh that sets the shape's weight.
use vstd::prelude::*;
use crate::handle::Handle;
use crate::input::{Key, KeyEvent};
use crate::text::{is_less, lemma_text_less_order, strip_prefix, text_less, without_prefix};

verus! {

/// The prefix that the model's exporter puts before every expression name.
pub const EXPRESSION_PREFIX: &'static str = "ExpressionBlendshapes.";

/// The model's turn per tick while a rotation key is held, in degrees.
pub const ROTATION_STEP: u32 = 5;

/// The model's initial turn, in degrees: it faces the camera.
pub const INITIAL_ANGLE: u32 = 180;

/// Whether some element of `v` reads `s`.
pub open spec fn has_text(v: Seq<String>, s: Seq<char>) -> bool {
    exists|i: int| 0 <= i < v.len() && #[trigger] v[i]@ == s
}

/// Strictly increasing in code-point order, hence without repeats.
pub open spec fn sorted_unique(v: Seq<String>) -> bool {
    forall|i: int, j: int| 0 <= i < j < v.len() ==> text_less(#[trigger] v[i]@, #[trigger] v[j]@)
}

/// Whether one of the first `n` surfaces has a blend shape named `s`.
pub open spec fn in_surfaces(surfaces: Seq<Vec<String>>, n: int, s: Seq<char>) -> bool {
    exists|j: int| 0 <= j < n && #[trigger] has_text(surfaces[j]@, s)
}

/// A sorted list of distinct names is determined by which names it holds:
/// two such lists that hold the same names read the same, position by
/// position. So the names that `collect_blend_shape_names` returns depend on
/// which names the surfaces hold, not on their order or repeats.
pub proof fn lemma_sorted_unique_determined(a: Seq<String>, b: Seq<String>)
    requires
        sorted_unique(a),
        sorted_unique(b),
        forall|s: Seq<char>| has_text(a, s) == has_text(b, s),
    ensures
        a.len() == b.len(),
        forall|i: int| 0 <= i < a.len() ==> (#[trigger] a[i])@ == b[i]@,
    decreases a.len(),
{
    if a.len() == 0 {
        if b.len() > 0 {
            assert(has_text(b, b[0]@));
        }
        return;
    }
    assert(has_text(a, a[0]@));
    assert(b.len() > 0);
    assert(has_text(b, b[0]@));
    let j = choose|j: int| 0 <= j < b.len() && #[trigger] b[j]@ == a[0]@;
    let k = choose|k: int| 0 <= k < a.len() && #[trigger] a[k]@ == b[0]@;
    lemma_text_less_order(a[0]@, b[0]@, a[0]@);
    lemma_text_less_order(b[0]@, a[0]@, b[0]@);
    if j > 0 && k > 0 {
        assert(text_less(b[0]@, b[j]@));
        assert(text_less(a[0]@, a[k]@));
    } else if j > 0 {
        assert(text_less(b[0]@, b[j]@));
    } else if k > 0 {
        assert(text_less(a[0]@, a[k]@));
    }
    assert(a[0]@ == b[0]@);
    let a1 = a.drop_first();
    let b1 = b.drop_first();
    assert forall|s: Seq<char>| has_text(a1, s) == has_text(b1, s) by {
        if has_text(a1, s) {
            let m = choose|m: int| 0 <= m < a1.len() && #[trigger] a1[m]@ == s;
            assert(text_less(a[0]@, a[m + 1]@));
            lemma_text_less_order(s, b[0]@, s);
            assert(has_text(a, a[m + 1]@));
            let n = choose|n: int| 0 <= n < b.len() && #[trigger] b[n]@ == s;
            assert(n != 0);
            assert(b1[n - 1]@ == s);
        }
        if has_text(b1, s) {
            let m = choose|m: int| 0 <= m < b1.len() && #[trigger] b1[m]@ == s;
            assert(text_less(b[0]@, b[m + 1]@));
            lemma_text_less_order(s, a[0]@, s);
            assert(has_text(b, b[m + 1]@));
            let n = choose|n: int| 0 <= n < a.len() && #[trigger] a[n]@ == s;
            assert(n != 0);
            assert(a1[n - 1]@ == s);
        }
    }
    lemma_sorted_unique_determined(a1, b1);
    assert forall|i: int| 0 <= i < a.len() implies (#[trigger] a[i])@ == b[i]@ by {
        if i > 0 {
            assert(a1[i - 1]@ == b1[i - 1]@);
        }
    }
}

/// Adds `name` to a sorted list of distinct names, where it is not there yet.
fn insert_name(names: &mut Vec<String>, name: &String)
    requires
        sorted_unique(old(names)@),
    ensures
        sorted_unique(final(names)@),
        forall|s: Seq<char>| has_text(final(names)@, s) == (has_text(old(names)@, s) || s == name@),
{
    let mut i: usize = 0;
    while i < names.len()
        invariant
            names@ == old(names)@,
            sorted_unique(names@),
            i <= names.len(),
            forall|k: int| 0 <= k < i ==> text_less(#[trigger] names@[k]@, name@),
        ensures
            names@ == old(names)@,
            sorted_unique(names@),
            i <= names.len(),
            forall|k: int| 0 <= k < i ==> text_less(#[trigger] names@[k]@, name@),
            i == names.len() || !text_less(names@[i as int]@, name@),
        decreases names.len() - i,
    {
        if !is_less(names[i].as_str(), name.as_str()) {
            break;
        }
        i = i + 1;
    }
    if i < names.len() && names[i] == *name {
        assert(has_text(names@, name@) && names@[i as int]@ == name@);
        return;
    }
    let ghost before = names@;
    proof {
        if i < before.len() {
            lemma_text_less_order(name@, before[i as int]@, name@);
            assert forall|k: int| i < k < before.len() implies text_less(
                name@,
                #[trigger] before[k]@,
            ) by {
                lemma_text_less_order(name@, before[i as int]@, before[k]@);
            }
        }
    }
    names.insert(i, name.clone());
    assert forall|s: Seq<char>| has_text(names@, s) == (has_text(before, s) || s == name@) by {
        if has_text(names@, s) {
            let k = choose|k: int| 0 <= k < names@.len() && #[trigger] names@[k]@ == s;
            if k < i {
                assert(before[k]@ == s);
            } else if k > i {
                assert(before[k - 1]@ == s);
            }
        }
        if has_text(before, s) {
            let k = choose|k: int| 0 <= k < before.len() && #[trigger] before[k]@ == s;
            if k < i {
                assert(names@[k]@ == s);
            } else {
                assert(names@[k + 1]@ == s);
            }
        }
        if s == name@ {
            assert(names@[i as int]@ == s);
        }
    }
    assert(forall|s: Seq<char>| has_text(names@, s) == (has_text(old(names)@, s) || s == name@));
}

/// The distinct names of the blend shapes of all surfaces, in code-point
/// order. Each element of `surfaces` lists the blend shapes of one surface.
pub fn collect_blend_shape_names(surfaces: &Vec<Vec<String>>) -> (r: Vec<String>)
    ensures
        sorted_unique(r@),
        forall|s: Seq<char>| has_text(r@, s) == in_surfaces(surfaces@, surfaces@.len() as int, s),
{
    let mut names: Vec<String> = Vec::new();
    let mut j: usize = 0;
    while j < surfaces.len()
        invariant
            j <= surfaces.len(),
            sorted_unique(names@),
            forall|s: Seq<char>| has_text(names@, s) == in_surfaces(surfaces@, j as int, s),
        decreases surfaces.len() - j,
    {
        let shapes = &surfaces[j];
        let mut k: usize = 0;
        while k < shapes.len()
            invariant
                j < surfaces.len(),
                shapes == surfaces@[j as int],
                k <= shapes.len(),
                sorted_unique(names@),
                forall|s: Seq<char>|
                    has_text(names@, s) == (in_surfaces(surfaces@, j as int, s) || has_text(
                        shapes@.take(k as int),
                        s,
                    )),
            decreases shapes.len() - k,
        {
            let ghost prev = names@;
            insert_name(&mut names, &shapes[k]);
            assert forall|s: Seq<char>|
                has_text(names@, s) == (in_surfaces(surfaces@, j as int, s) || has_text(
                    shapes@.take(k + 1),
                    s,
                )) by {
                assert(shapes@.take(k + 1) =~= shapes@.take(k as int).push(shapes@[k as int]));
                if has_text(shapes@.take(k + 1), s) {
                    let m = choose|m: int|
                        0 <= m < shapes@.take(k + 1).len() && #[trigger] shapes@.take(k + 1)[m]@
                            == s;
                    if m < k {
                        assert(shapes@.take(k as int)[m]@ == s);
                    }
                }
                if has_text(shapes@.take(k as int), s) {
                    let m = choose|m: int|
                        0 <= m < shapes@.take(k as int).len() && #[trigger] shapes@.take(
                            k as int,
                        )[m]@ == s;
                    assert(shapes@.take(k + 1)[m]@ == s);
                }
                if s == shapes@[k as int]@ {
                    assert(shapes@.take(k + 1)[k as int]@ == s);
                }
            }
            k = k + 1;
        }
        assert forall|s: Seq<char>|
            has_text(names@, s) == in_surfaces(surfaces@, j + 1, s) by {
            assert(shapes@.take(k as int) =~= shapes@);
            if has_text(shapes@, s) {
                assert(has_text(surfaces@[j as int]@, s));
            }
            if in_surfaces(surfaces@, j + 1, s) {
                let m = choose|m: int| 0 <= m < j + 1 && #[trigger] has_text(surfaces@[m]@, s);
                if m < j {
                    assert(in_surfaces(surfaces@, j as int, s));
                }
            }
        }
        j = j + 1;
    }
    names
}

/// The text shown beside a blend shape's slider: its name without the
/// exporter's prefix.
pub fn short_name(name: &str) -> (r: String)
    ensures
        r@ == strip_prefix(name@, EXPRESSION_PREFIX@),
{
    without_prefix(name, EXPRESSION_PREFIX)
}

/// Which of the two rotation keys are held.
#[derive(Clone, Copy, Debug, PartialEq, Eq, Structural)]
pub struct InputController {
    pub rotate_left: bool,
    pub rotate_right: bool,
}

impl InputController {
    /// A drives `rotate_left` and D `rotate_right`.
    pub open spec fn spec_on_key(self, event: KeyEvent) -> InputController {
        let pressed = event.spec_is_pressed();
        match event.key {
            Key::KeyA => InputController { rotate_left: pressed, ..self },
            Key::KeyD => InputController { rotate_right: pressed, ..self },
            _ => self,
        }
    }

    /// The change of the model's turn per tick, in degrees; left wins.
    pub open spec fn spec_step(self) -> int {
        if self.rotate_left {
            -ROTATION_STEP
        } else if self.rotate_right {
            ROTATION_STEP as int
        } else {
            0
        }
    }

    pub fn on_key(&mut self, event: KeyEvent)
        ensures
            *final(self) == old(self).spec_on_key(event),
    {
        let pressed = event.is_pressed();
        match event.key {
            Key::KeyA => self.rotate_left = pressed,
            Key::KeyD => self.rotate_right = pressed,
            _ => {},
        }
    }
}

/// The viewer's plugin state.
#[derive(Debug)]
pub struct Game {
    pub scene: Handle,
    /// Whether the scene is still being loaded in the background.
    pub loading: bool,
    pub model_handle: Handle,
    pub input_controller: InputController,
    pub debug_text: Handle,
    /// The model's turn about the vertical axis, in degrees, in `0..360`.
    pub model_angle: u32,
    /// Each slider with the name of the blend shape that it drives.
    pub sliders: Vec<(String, Handle)>,
}

impl Game {
    pub open spec fn wf(self) -> bool {
        self.model_angle < 360
    }

    /// Whether some slider at `destination` drives the blend shape `name`.
    pub open spec fn spec_drives(self, destination: Handle, name: Seq<char>) -> bool {
        exists|j: int|
            0 <= j < self.sliders@.len() && (#[trigger] self.sliders@[j]).1 == destination
                && self.sliders@[j].0@ == name
    }

    /// Starts on `override_scene` where there is one, else starts loading the
    /// scene in the background.
    pub fn new(override_scene: Handle, debug_text: Handle) -> (r: Game)
        ensures
            r.wf(),
            r.scene == (if override_scene.spec_is_none() {
                Handle { index: 0, generation: 0 }
            } else {
                override_scene
            }),
            r.loading == override_scene.spec_is_none(),
            r.model_handle.spec_is_none(),
            r.input_controller == (InputController { rotate_left: false, rotate_right: false }),
            r.debug_text == debug_text,
            r.model_angle == INITIAL_ANGLE,
            r.sliders@.len() == 0,
    {
        let loading = override_scene.is_none();
        Game {
            scene: if loading { Handle::none() } else { override_scene },
            loading,
            model_handle: Handle::none(),
            input_controller: InputController { rotate_left: false, rotate_right: false },
            debug_text,
            model_angle: INITIAL_ANGLE,
            sliders: Vec::new(),
        }
    }

    /// Takes the sliders built for the loaded scene, and the model found in
    /// it, if any.
    pub fn on_scene_loaded(&mut self, sliders: Vec<(String, Handle)>, model: Option<Handle>)
        ensures
            final(self).sliders == sliders,
            final(self).model_handle == (match model {
                Some(h) => h,
                None => Handle { index: 0, generation: 0 },
            }),
            final(self).scene == old(self).scene,
            final(self).loading == old(self).loading,
            final(self).input_controller == old(self).input_controller,
            final(self).debug_text == old(self).debug_text,
            final(self).model_angle == old(self).model_angle,
    {
        self.model_handle = match model {
            Some(h) => h,
            None => Handle::none(),
        };
        self.sliders = sliders;
    }

    /// Keeps a scene that finished loading in the background.
    pub fn on_scene_added(&mut self, scene: Handle)
        ensures
            final(self).scene == scene,
            !final(self).loading,
            final(self).model_handle == old(self).model_handle,
            final(self).input_controller == old(self).input_controller,
            final(self).debug_text == old(self).debug_text,
            final(self).model_angle == old(self).model_angle,
            final(self).sliders == old(self).sliders,
    {
        self.scene = scene;
        self.loading = false;
    }

    pub fn on_key(&mut self, event: KeyEvent)
        ensures
            final(self).input_controller == old(self).input_controller.spec_on_key(event),
            final(self).scene == old(self).scene,
            final(self).loading == old(self).loading,
            final(self).model_handle == old(self).model_handle,
            final(self).debug_text == old(self).debug_text,
            final(self).model_angle == old(self).model_angle,
            final(self).sliders == old(self).sliders,
    {
        self.input_controller.on_key(event);
    }

    /// One tick: while the scene exists, turns the model by the held key's
    /// step, modulo a full turn, and returns the turn to apply to it.
    pub fn on_update(&mut self, scene_present: bool) -> (r: Option<u32>)
        requires
            old(self).wf(),
        ensures
            final(self).wf(),
            final(self).model_angle == (if scene_present {
                (old(self).model_angle + old(self).input_controller.spec_step()) % 360
            } else {
                old(self).model_angle as int
            }),
            r == (if scene_present { Some(final(self).model_angle) } else { None::<u32> }),
            final(self).scene == old(self).scene,
            final(self).loading == old(self).loading,
            final(self).model_handle == old(self).model_handle,
            final(self).input_controller == old(self).input_controller,
            final(self).debug_text == old(self).debug_text,
            final(self).sliders == old(self).sliders,
    {
        if !scene_present {
            return None;
        }
        if self.input_controller.rotate_left {
            if self.model_angle < ROTATION_STEP {
                self.model_angle = self.model_angle + 360 - ROTATION_STEP;
            } else {
                self.model_angle = self.model_angle - ROTATION_STEP;
            }
        } else if self.input_controller.rotate_right {
            if self.model_angle >= 360 - ROTATION_STEP {
                self.model_angle = self.model_angle + ROTATION_STEP - 360;
            } else {
                self.model_angle = self.model_angle + ROTATION_STEP;
            }
        }
        Some(self.model_angle)
    }

    /// Whether some slider at `destination` drives the blend shape `name`.
    pub fn drives(&self, destination: Handle, name: &String) -> (r: bool)
        ensures
            r == self.spec_drives(destination, name@),
    {
        let mut j: usize = 0;
        while j < self.sliders.len()
            invariant
                j <= self.sliders@.len(),
                forall|m: int|
                    0 <= m < j ==> !((#[trigger] self.sliders@[m]).1 == destination
                        && self.sliders@[m].0@ == name@),
            decreases self.sliders.len() - j,
        {
            if self.sliders[j].1 == destination && self.sliders[j].0 == *name {
                assert(self.sliders@[j as int].1 == destination);
                return true;
            }
            j = j + 1;
        }
        false
    }

    /// Whether `destination` is one of the sliders.
    pub fn is_slider(&self, destination: Handle) -> (r: bool)
        ensures
            r == exists|j: int| 0 <= j < self.sliders@.len() && (#[trigger] self.sliders@[j]).1 == destination,
    {
        let mut j: usize = 0;
        while j < self.sliders.len()
            invariant
                j <= self.sliders@.len(),
                forall|m: int| 0 <= m < j ==> (#[trigger] self.sliders@[m]).1 != destination,
            decreases self.sliders.len() - j,
        {
            if self.sliders[j].1 == destination {
                assert(self.sliders@[j as int].1 == destination);
                return true;
            }
            j = j + 1;
        }
        false
    }

    /// A slider reported a new value: for each blend shape of the model, in
    /// the order of `shape_names`, whether its weight takes that value.
    /// Only values that come from the widget count.
    pub fn on_slider_value(&self, destination: Handle, from_widget: bool, shape_names: &Vec<String>) -> (r: Vec<bool>)
        ensures
            r@.len() == shape_names@.len(),
            forall|i: int|
                0 <= i < r@.len() ==> #[trigger] r@[i] == (from_widget && self.spec_drives(
                    destination,
                    shape_names@[i]@,
                )),
    {
        let mut r: Vec<bool> = Vec::new();
        let mut i: usize = 0;
        while i < shape_names.len()
            invariant
                i <= shape_names@.len(),
                r@.len() == i,
                forall|k: int|
                    0 <= k < i ==> #[trigger] r@[k] == (from_widget && self.spec_drives(
                        destination,
                        shape_names@[k]@,
                    )),
            decreases shape_names.len() - i,
        {
            let d = from_widget && self.drives(destination, &shape_names[i]);
            r.push(d);
            i = i + 1;
        }
        r
    }
}

/// Makes the viewer's plugin.
pub struct GameConstructor;

impl GameConstructor {
    pub fn create_instance(&self, override_scene: Handle, debug_text: Handle) -> (r: Game)
        ensures
            r.wf(),
            r.loading == override_scene.spec_is_none(),
            !override_scene.spec_is_none() ==> r.scene == override_scene,
            override_scene.spec_is_none() ==> r.scene.spec_is_none(),
            r.model_angle == INITIAL_ANGLE,
            r.debug_text == debug_text,
            r.sliders@.len() == 0,
    {
        Game::new(override_scene, debug_text)
    }
}

} // verus!
