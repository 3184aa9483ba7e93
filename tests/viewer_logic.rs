use demo_games::blendshape::{
    collect_blend_shape_names, short_name, Game, GameConstructor, InputController,
};
use demo_games::handle::Handle;
use demo_games::input::{Key, KeyEvent, KeyState};
use demo_games::text::{is_less, starts_with, without_prefix};

fn strings(v: &[&str]) -> Vec<String> {
    v.iter().map(|s| s.to_string()).collect()
}

#[test]
fn names_are_sorted_and_unique() {
    let surfaces = vec![
        strings(&["ExpressionBlendshapes.Smile", "ExpressionBlendshapes.Blink"]),
        strings(&[]),
        strings(&["ExpressionBlendshapes.Blink", "Jaw", "ExpressionBlendshapes.Angry"]),
    ];
    let names = collect_blend_shape_names(&surfaces);
    assert_eq!(
        names,
        strings(&[
            "ExpressionBlendshapes.Angry",
            "ExpressionBlendshapes.Blink",
            "ExpressionBlendshapes.Smile",
            "Jaw",
        ])
    );
}

#[test]
fn names_of_no_surfaces() {
    assert!(collect_blend_shape_names(&vec![]).is_empty());
    assert!(collect_blend_shape_names(&vec![vec![], vec![]]).is_empty());
}

#[test]
fn names_follow_code_point_order() {
    let surfaces = vec![strings(&["b", "B", "ab", "a", "", "é", "a"])];
    let names = collect_blend_shape_names(&surfaces);
    assert_eq!(names, strings(&["", "B", "a", "ab", "b", "é"]));
}

#[test]
fn short_names_drop_the_prefix() {
    assert_eq!(short_name("ExpressionBlendshapes.Smile"), "Smile");
    assert_eq!(short_name("ExpressionBlendshapes."), "");
    assert_eq!(short_name("Jaw"), "Jaw");
    assert_eq!(short_name("ExpressionBlend"), "ExpressionBlend");
    assert_eq!(short_name("xExpressionBlendshapes.Smile"), "xExpressionBlendshapes.Smile");
}

#[test]
fn text_helpers() {
    assert!(is_less("a", "b"));
    assert!(is_less("a", "ab"));
    assert!(!is_less("ab", "a"));
    assert!(!is_less("same", "same"));
    assert!(is_less("Z", "a"));
    assert!(starts_with("prefix-rest", "prefix"));
    assert!(starts_with("x", ""));
    assert!(!starts_with("pre", "prefix"));
    assert_eq!(without_prefix("héllo", "hé"), "llo");
    assert_eq!(without_prefix("hello", "x"), "hello");
}

#[test]
fn new_game_with_and_without_scene() {
    let g = Game::new(Handle::none(), Handle::new(9, 1));
    assert!(g.loading);
    assert!(g.scene.is_none());
    assert_eq!(g.model_angle, 180);
    assert_eq!(g.debug_text, Handle::new(9, 1));
    let g = GameConstructor.create_instance(Handle::new(3, 4), Handle::new(9, 1));
    assert!(!g.loading);
    assert_eq!(g.scene, Handle::new(3, 4));
    assert!(g.sliders.is_empty());
}

#[test]
fn rotation_wraps_around() {
    let mut g = Game::new(Handle::new(1, 1), Handle::none());
    assert_eq!(g.on_update(true), Some(180));
    g.on_key(KeyEvent::new(Key::KeyD, KeyState::Pressed));
    assert_eq!(g.on_update(true), Some(185));
    assert_eq!(g.on_update(false), None);
    assert_eq!(g.model_angle, 185);
    g.on_key(KeyEvent::new(Key::KeyA, KeyState::Pressed));
    g.model_angle = 3;
    assert_eq!(g.on_update(true), Some(358));
    g.on_key(KeyEvent::new(Key::KeyA, KeyState::Released));
    g.model_angle = 357;
    assert_eq!(g.on_update(true), Some(2));
    assert_eq!(g.on_update(true), Some(7));
}

#[test]
fn input_controller_keys() {
    let mut c = InputController { rotate_left: false, rotate_right: false };
    c.on_key(KeyEvent::new(Key::KeyA, KeyState::Pressed));
    c.on_key(KeyEvent::new(Key::KeyW, KeyState::Pressed));
    assert_eq!(c, InputController { rotate_left: true, rotate_right: false });
    c.on_key(KeyEvent::new(Key::KeyD, KeyState::Pressed));
    c.on_key(KeyEvent::new(Key::KeyA, KeyState::Released));
    assert_eq!(c, InputController { rotate_left: false, rotate_right: true });
}

#[test]
fn slider_values_reach_matching_shapes() {
    let mut g = Game::new(Handle::new(1, 1), Handle::none());
    g.on_scene_loaded(
        vec![
            ("Blink".to_string(), Handle::new(10, 1)),
            ("Smile".to_string(), Handle::new(11, 1)),
        ],
        Some(Handle::new(20, 1)),
    );
    assert_eq!(g.model_handle, Handle::new(20, 1));
    let shapes = strings(&["Smile", "Blink", "Smile", "Jaw"]);
    assert_eq!(
        g.on_slider_value(Handle::new(11, 1), true, &shapes),
        vec![true, false, true, false]
    );
    assert_eq!(
        g.on_slider_value(Handle::new(10, 1), true, &shapes),
        vec![false, true, false, false]
    );
    assert_eq!(
        g.on_slider_value(Handle::new(11, 1), false, &shapes),
        vec![false, false, false, false]
    );
    assert_eq!(
        g.on_slider_value(Handle::new(12, 1), true, &shapes),
        vec![false, false, false, false]
    );
    assert!(g.is_slider(Handle::new(11, 1)));
    assert!(!g.is_slider(Handle::new(11, 2)));
    assert!(g.drives(Handle::new(10, 1), &"Blink".to_string()));
    assert!(!g.drives(Handle::new(10, 1), &"Smile".to_string()));
    g.on_scene_loaded(vec![], None);
    assert!(g.model_handle.is_none());
    g.on_scene_added(Handle::new(2, 2));
    assert_eq!(g.scene, Handle::new(2, 2));
    assert!(!g.loading);
}
