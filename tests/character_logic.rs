use demo_games::animation::{Game, Player, Resize};
use demo_games::camera::{CameraController, Travel};
use demo_games::handle::Handle;
use demo_games::input::{Key, KeyEvent, KeyState};

fn press(key: Key) -> KeyEvent {
    KeyEvent::new(key, KeyState::Pressed)
}

fn release(key: Key) -> KeyEvent {
    KeyEvent::new(key, KeyState::Released)
}

fn player_with(keys: &[Key]) -> Player {
    let mut p = Player::new();
    for k in keys {
        p.on_key(press(*k));
    }
    p
}

#[test]
fn facing_table() {
    assert_eq!(player_with(&[]).facing_degrees(), 0);
    assert_eq!(player_with(&[Key::KeyW]).facing_degrees(), 0);
    assert_eq!(player_with(&[Key::KeyS]).facing_degrees(), 180);
    assert_eq!(player_with(&[Key::KeyA]).facing_degrees(), 90);
    assert_eq!(player_with(&[Key::KeyA, Key::KeyW]).facing_degrees(), 45);
    assert_eq!(player_with(&[Key::KeyA, Key::KeyS]).facing_degrees(), 135);
    assert_eq!(player_with(&[Key::KeyD]).facing_degrees(), -90);
    assert_eq!(player_with(&[Key::KeyD, Key::KeyW]).facing_degrees(), -45);
    assert_eq!(player_with(&[Key::KeyD, Key::KeyS]).facing_degrees(), -135);
    assert_eq!(player_with(&[Key::KeyA, Key::KeyD]).facing_degrees(), 90);
    assert_eq!(player_with(&[Key::KeyW, Key::KeyS]).facing_degrees(), 180);
}

#[test]
fn moving_and_run_index() {
    let mut p = Player::new();
    assert!(!p.is_moving());
    assert_eq!(p.move_animation_index(), 0);
    p.on_key(press(Key::ShiftLeft));
    assert!(!p.is_moving());
    assert_eq!(p.move_animation_index(), 1);
    p.on_key(press(Key::KeyS));
    assert!(p.is_moving());
    p.on_key(release(Key::KeyS));
    p.on_key(release(Key::ShiftLeft));
    assert!(!p.is_moving());
    assert_eq!(p.move_animation_index(), 0);
    p.on_key(press(Key::Space));
    assert_eq!(p, Player::new());
}

#[test]
fn overlay_follows_window_and_hides_on_load() {
    let mut g = Game::new();
    g.on_overlay_built(Handle::new(5, 1), Handle::new(6, 1), Handle::new(7, 1));
    assert_eq!(
        g.handle_resize(1280, 720),
        Resize { target: Handle::new(5, 1), width: 1280, height: 720 }
    );
    let hidden = g.on_scene_loaded(Handle::new(1, 2));
    assert_eq!(hidden, Handle::new(5, 1));
    assert_eq!(g.scene, Handle::new(1, 2));
    assert_eq!(g.progress_bar, Handle::new(6, 1));
}

#[test]
fn camera_travel() {
    let mut c = CameraController::new();
    assert_eq!(c.travel(), Travel { look: 0, side: 0 });
    assert!(!c.travel().moves());
    c.on_key(press(Key::KeyW));
    assert_eq!(c.travel(), Travel { look: 1, side: 0 });
    c.on_key(press(Key::KeyS));
    assert_eq!(c.travel(), Travel { look: 0, side: 0 });
    assert!(!c.travel().moves());
    c.on_key(press(Key::KeyD));
    assert_eq!(c.travel(), Travel { look: 0, side: -1 });
    assert!(c.travel().moves());
    c.on_key(release(Key::KeyW));
    c.on_key(press(Key::KeyA));
    c.on_key(release(Key::KeyD));
    assert_eq!(c.travel(), Travel { look: -1, side: 1 });
    c.on_key(press(Key::ShiftLeft));
    assert_eq!(c.travel(), Travel { look: -1, side: 1 });
}
