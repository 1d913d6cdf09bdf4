use glam::{Quat, Vec3};
use render_core::app::{Action, App, WindowEvent};
use render_core::graphics::graphics::{
    create_graphics, ElementState, KeyEvent, Motion, PhysicalKey, PhysicalSize,
};
use render_core::graphics::structures::KeyCode;
use std::time::Duration;

const SPEED: f32 = 5.0;

fn advance(position: Vec3, rotation: Quat, motion: &Motion) -> Vec3 {
    let forward = rotation * Vec3::new(0.0, 0.0, -1.0);
    let right = rotation * Vec3::new(1.0, 0.0, 0.0);
    let mut direction = Vec3::ZERO;
    if motion.forward {
        direction += forward;
    }
    if motion.backward {
        direction -= forward;
    }
    if motion.left {
        direction -= right;
    }
    if motion.right {
        direction += right;
    }
    if direction.length_squared() > 0.0 {
        direction = direction.normalize();
    }
    let delta_time = Duration::from_nanos(motion.delta_time).as_secs_f32();
    position + direction * SPEED * delta_time * motion.shift_multiplier as f32
}

fn update_of(actions: &[Action]) -> Motion {
    match &actions[0] {
        Action::Update(motion) => *motion,
        other => panic!("unexpected first action {:?}", other),
    }
}

fn press(key_code: KeyCode) -> WindowEvent {
    WindowEvent::KeyboardInput {
        event: KeyEvent { physical_key: PhysicalKey::Code(key_code), state: ElementState::Pressed },
    }
}

fn ready_app() -> App {
    let mut app = App::new();
    app.resumed();
    app.user_event(create_graphics(PhysicalSize { width: 800, height: 600 }, 0));
    app
}

#[test]
fn forward_for_one_second_at_default_speed() {
    let mut app = ready_app();
    app.window_event(press(KeyCode::KeyW), 0);
    let motion = update_of(&app.window_event(WindowEvent::RedrawRequested, 1_000_000_000));
    let position = advance(Vec3::ZERO, Quat::IDENTITY, &motion);
    let expected = Vec3::new(0.0, 0.0, -1.0) * 5.0;
    assert!((position - expected).length() < 1e-5);
}

#[test]
fn forward_with_modifier_is_five_times_as_far() {
    let mut app = ready_app();
    app.window_event(press(KeyCode::KeyW), 0);
    app.window_event(press(KeyCode::ShiftLeft), 0);
    let motion = update_of(&app.window_event(WindowEvent::RedrawRequested, 1_000_000_000));
    let position = advance(Vec3::ZERO, Quat::IDENTITY, &motion);
    assert!((position - Vec3::new(0.0, 0.0, -25.0)).length() < 1e-4);
}

#[test]
fn no_keys_leave_the_position() {
    let mut app = ready_app();
    let motion = update_of(&app.window_event(WindowEvent::RedrawRequested, 1_000_000_000));
    let start = Vec3::new(1.5, -2.0, 3.25);
    assert_eq!(advance(start, Quat::IDENTITY, &motion), start);
}

#[test]
fn no_elapsed_time_leaves_the_position() {
    let mut app = ready_app();
    app.window_event(press(KeyCode::KeyW), 0);
    app.window_event(press(KeyCode::KeyD), 0);
    app.window_event(press(KeyCode::ShiftLeft), 0);
    let motion = update_of(&app.window_event(WindowEvent::RedrawRequested, 0));
    assert_eq!(motion.delta_time, 0);
    let start = Vec3::new(1.5, -2.0, 3.25);
    assert_eq!(advance(start, Quat::IDENTITY, &motion), start);
}

#[test]
fn opposite_keys_leave_the_position() {
    let mut app = ready_app();
    app.window_event(press(KeyCode::KeyW), 0);
    app.window_event(press(KeyCode::KeyS), 0);
    app.window_event(press(KeyCode::KeyA), 0);
    app.window_event(press(KeyCode::KeyD), 0);
    let motion = update_of(&app.window_event(WindowEvent::RedrawRequested, 1_000_000_000));
    let start = Vec3::new(1.5, -2.0, 3.25);
    assert_eq!(advance(start, Quat::IDENTITY, &motion), start);
}
