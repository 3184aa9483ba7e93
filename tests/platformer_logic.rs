use demo_games::handle::Handle;
use demo_games::input::{Key, KeyEvent, KeyState};
use demo_games::platformer::{Game, MenuAction, Mirror, Motion, Player, Vertical};

fn press(key: Key) -> KeyEvent {
    KeyEvent::new(key, KeyState::Pressed)
}

fn release(key: Key) -> KeyEvent {
    KeyEvent::new(key, KeyState::Released)
}

#[test]
fn new_player_is_idle() {
    let p = Player::new();
    assert!(!p.move_left && !p.move_right && !p.jump);
    assert_eq!(p.current_animation, 0);
}

#[test]
fn keys_set_and_clear_flags() {
    let mut p = Player::new();
    p.on_key(press(Key::KeyA));
    assert!(p.move_left);
    p.on_key(press(Key::KeyD));
    assert!(p.move_right);
    p.on_key(press(Key::Space));
    assert!(p.jump);
    p.on_key(release(Key::KeyA));
    assert!(!p.move_left);
    p.on_key(press(Key::KeyW));
    assert!(!p.move_left && p.move_right && p.jump);
}

#[test]
fn left_moves_with_positive_speed_and_mirrors() {
    let mut p = Player::new();
    p.on_key(press(Key::KeyA));
    let m = p.on_update();
    assert_eq!(m, Motion { x_speed: 3, vertical: Vertical::Keep, mirror: Mirror::Negative });
    assert_eq!(p.current_animation, 0);
}

#[test]
fn right_moves_with_negative_speed() {
    let mut p = Player::new();
    p.on_key(press(Key::KeyD));
    let m = p.on_update();
    assert_eq!(m.x_speed, -3);
    assert_eq!(m.mirror, Mirror::Positive);
    assert_eq!(p.current_animation, 0);
}

#[test]
fn left_wins_over_right() {
    let mut p = Player::new();
    p.on_key(press(Key::KeyD));
    p.on_key(press(Key::KeyA));
    assert_eq!(p.x_speed(), 3);
}

#[test]
fn idle_jump_keeps_orientation() {
    let mut p = Player::new();
    p.on_key(press(Key::Space));
    let m = p.on_update();
    assert_eq!(m, Motion { x_speed: 0, vertical: Vertical::Jump, mirror: Mirror::Keep });
    assert_eq!(p.current_animation, 1);
}

#[test]
fn active_animation_checks_bounds() {
    let mut p = Player::new();
    p.on_update();
    assert_eq!(p.current_animation, 1);
    assert_eq!(p.active_animation(2), Some(1));
    assert_eq!(p.active_animation(1), None);
    assert_eq!(p.active_animation(0), None);
}

#[test]
fn menu_routes_clicks() {
    let mut g = Game::new();
    g.on_menu_loaded(Handle::new(1, 1), Handle::new(2, 1), Handle::new(3, 1));
    assert_eq!(g.on_click(Handle::new(1, 1)), MenuAction::HideMenu);
    assert_eq!(g.on_click(Handle::new(2, 1)), MenuAction::Exit);
    assert_eq!(g.on_click(Handle::new(2, 2)), MenuAction::Nothing);
    g.on_scene_loaded(Handle::new(7, 3));
    assert_eq!(g.scene, Handle::new(7, 3));
}

#[test]
fn menu_before_loading_hides_on_unassigned_target() {
    let g = Game::new();
    assert_eq!(g.on_click(Handle::none()), MenuAction::HideMenu);
    assert_eq!(g.on_click(Handle::new(4, 1)), MenuAction::Nothing);
}

#[test]
fn handle_none_and_some() {
    assert!(Handle::none().is_none());
    assert!(!Handle::none().is_some());
    assert!(Handle::new(0, 1).is_some());
    assert!(Handle::new(1, 0).is_some());
    assert!(KeyEvent::new(Key::Other, KeyState::Pressed).is_pressed());
    assert!(!KeyEvent::new(Key::Other, KeyState::Released).is_pressed());
}
