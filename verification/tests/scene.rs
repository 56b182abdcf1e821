use planet_game::ball::{Ball, Tuning};
use planet_game::game_state::{Camera, Controls, Event, GameState, Key, MouseButton};
use planet_game::npc::{Npc, Turn};
use planet_game::planet::{BodyError, Color, Planet};
use planet_game::vector::Vec2;
use std::f32::consts::PI;

fn tint() -> Color<f32> {
    Color { r: 0.05, g: 0.8, b: 0.4, a: 1.0 }
}

fn white() -> Color<f32> {
    Color { r: 1.0, g: 1.0, b: 1.0, a: 1.0 }
}

fn controls() -> Controls<f32> {
    Controls {
        zero: 0.0,
        one: 1.0,
        pan_step: 20.0,
        zoom_in: 1.1,
        zoom_out: 0.9,
        ball_radius: 5.0,
        ball_mass: 2.5,
        ball_color: tint(),
    }
}

fn heading(angle: f32) -> Vec2<f32> {
    Vec2::new(angle.cos(), angle.sin())
}

fn scene() -> GameState<f32> {
    let ball = Ball::new(Vec2::new(-200.0, -200.0), Vec2::new(50.0, 0.0), 5.0, 2.5, tint(), 0.0).unwrap();
    let planet = Planet::new(Vec2::new(0.0, 0.0), 250.0, 1e10, white(), 0.0).unwrap();
    let npcs = vec![
        Npc::new(planet.position, 250.0, 0.0, PI / 2.0, 0.001, 0.0, heading(0.0)),
        Npc::new(planet.position, 250.0, 1.0, 1.0005, 0.001, 0.0, heading(1.0)),
    ];
    let camera = Camera { position: Vec2::new(0.0, 0.0), scale: Vec2::new(1.0, 1.0) };
    GameState::new(ball, planet, npcs, camera, 0.0)
}

#[test]
fn new_scene_holds_what_it_was_given() {
    let state = scene();
    assert_eq!(state.balls.len(), 1);
    assert_eq!(state.balls[0].position, Vec2::new(-200.0, -200.0));
    assert_eq!(state.planet.radius, 250.0);
    assert_eq!(state.npcs.len(), 2);
    assert!(!state.is_right_click);
    assert!(!state.drag_drop_fling.is_dragging);
    assert_eq!(state.camera.scale, Vec2::new(1.0, 1.0));
}

#[test]
fn left_drag_launches_a_ball() {
    let mut state = scene();
    let press = Event::MouseButtonPressed { button: MouseButton::Left, position: Vec2::new(10.0, 20.0) };
    assert_eq!(state.event(press, &controls()), Ok(()));
    assert!(state.drag_drop_fling.is_dragging);
    let moved = Event::MouseMoved { position: Vec2::new(13.0, 24.0), delta: Vec2::new(3.0, 4.0) };
    assert_eq!(state.event(moved, &controls()), Ok(()));
    assert_eq!(state.camera.position, Vec2::new(0.0, 0.0));
    let release = Event::MouseButtonReleased { button: MouseButton::Left };
    assert_eq!(state.event(release, &controls()), Ok(()));
    assert!(!state.drag_drop_fling.is_dragging);
    assert_eq!(state.balls.len(), 2);
    let launched = &state.balls[1];
    assert!(launched.is_visable);
    assert_eq!(launched.position, Vec2::new(10.0, 20.0));
    assert_eq!(launched.velocity, Vec2::new(3.0, 4.0));
    assert_eq!(launched.radius, 5.0);
    assert_eq!(launched.mass, 2.5);
    assert_eq!(launched.color, tint());
    assert_eq!(launched.trail.len(), 0);
    assert_eq!(state.balls[0].position, Vec2::new(-200.0, -200.0));
}

#[test]
fn launch_with_a_bad_size_adds_no_ball() {
    let mut state = scene();
    let mut bad = controls();
    bad.ball_mass = 0.0;
    let press = Event::MouseButtonPressed { button: MouseButton::Left, position: Vec2::new(1.0, 2.0) };
    assert_eq!(state.event(press, &bad), Ok(()));
    let release = Event::MouseButtonReleased { button: MouseButton::Left };
    assert_eq!(state.event(release, &bad), Err(BodyError::Mass));
    assert_eq!(state.balls.len(), 1);
    assert!(!state.drag_drop_fling.is_dragging);
    bad.ball_radius = -1.0;
    assert_eq!(state.event(release, &bad), Err(BodyError::Radius));
}

#[test]
fn spawn_ball_appends() {
    let mut state = scene();
    let at = Vec2::new(1.0, 2.0);
    assert_eq!(state.spawn_ball(at, Vec2::new(3.0, 4.0), 5.0, 2.5, tint(), 0.0), Ok(()));
    assert_eq!(state.balls.len(), 2);
    assert_eq!(state.balls[1].position, at);
    assert_eq!(state.spawn_ball(at, at, 0.0, 2.5, tint(), 0.0), Err(BodyError::Radius));
    assert_eq!(state.spawn_ball(at, at, 5.0, -2.5, tint(), 0.0), Err(BodyError::Mass));
    assert_eq!(state.balls.len(), 2);
}

#[test]
fn pointer_moves_are_ignored_without_a_drag() {
    let mut state = scene();
    let moved = Event::MouseMoved { position: Vec2::new(13.0, 24.0), delta: Vec2::new(3.0, 4.0) };
    assert_eq!(state.event(moved, &controls()), Ok(()));
    assert_eq!(state.drag_drop_fling.current_position, Vec2::new(0.0, 0.0));
    assert_eq!(state.camera.position, Vec2::new(0.0, 0.0));
}

#[test]
fn right_drag_moves_the_camera_against_the_pointer() {
    let mut state = scene();
    state.camera.scale = Vec2::new(2.0, 4.0);
    let press = Event::MouseButtonPressed { button: MouseButton::Right, position: Vec2::new(0.0, 0.0) };
    assert_eq!(state.event(press, &controls()), Ok(()));
    assert!(state.is_right_click);
    assert!(!state.drag_drop_fling.is_dragging);
    let moved = Event::MouseMoved { position: Vec2::new(5.0, 5.0), delta: Vec2::new(6.0, -8.0) };
    assert_eq!(state.event(moved, &controls()), Ok(()));
    assert_eq!(state.camera.position, Vec2::new(-3.0, 2.0));
    let release = Event::MouseButtonReleased { button: MouseButton::Right };
    assert_eq!(state.event(release, &controls()), Ok(()));
    assert!(!state.is_right_click);
    assert_eq!(state.balls.len(), 1);
    assert_eq!(state.event(moved, &controls()), Ok(()));
    assert_eq!(state.camera.position, Vec2::new(-3.0, 2.0));
}

#[test]
fn wheel_zooms() {
    let mut state = scene();
    assert_eq!(state.event(Event::MouseWheelMoved { amount: 1 }, &controls()), Ok(()));
    assert_eq!(state.camera.scale, Vec2::new(1.1, 1.1));
    assert_eq!(state.event(Event::MouseWheelMoved { amount: 0 }, &controls()), Ok(()));
    assert_eq!(state.camera.scale, Vec2::new(1.1, 1.1));
    assert_eq!(state.event(Event::MouseWheelMoved { amount: -3 }, &controls()), Ok(()));
    assert_eq!(state.camera.scale, Vec2::new(1.1_f32 * 0.9, 1.1_f32 * 0.9));
    assert_eq!(state.camera.position, Vec2::new(0.0, 0.0));
}

#[test]
fn keys_move_the_camera() {
    let mut state = scene();
    assert_eq!(state.event(Event::KeyReleased { key: Key::W }, &controls()), Ok(()));
    assert_eq!(state.camera.position, Vec2::new(0.0, -20.0));
    assert_eq!(state.event(Event::KeyReleased { key: Key::A }, &controls()), Ok(()));
    assert_eq!(state.camera.position, Vec2::new(-20.0, -20.0));
    assert_eq!(state.event(Event::KeyReleased { key: Key::S }, &controls()), Ok(()));
    assert_eq!(state.event(Event::KeyReleased { key: Key::S }, &controls()), Ok(()));
    assert_eq!(state.camera.position, Vec2::new(-20.0, 20.0));
    assert_eq!(state.event(Event::KeyReleased { key: Key::D }, &controls()), Ok(()));
    assert_eq!(state.camera.position, Vec2::new(0.0, 20.0));
    assert_eq!(state.event(Event::KeyReleased { key: Key::Other }, &controls()), Ok(()));
    assert_eq!(state.camera.position, Vec2::new(0.0, 20.0));
    assert_eq!(state.camera.scale, Vec2::new(1.0, 1.0));
}

#[test]
fn other_events_and_buttons_change_nothing() {
    let mut state = scene();
    assert_eq!(state.event(Event::Other, &controls()), Ok(()));
    let press = Event::MouseButtonPressed { button: MouseButton::Other, position: Vec2::new(1.0, 1.0) };
    assert_eq!(state.event(press, &controls()), Ok(()));
    let release = Event::MouseButtonReleased { button: MouseButton::Other };
    assert_eq!(state.event(release, &controls()), Ok(()));
    assert_eq!(state.balls.len(), 1);
    assert!(!state.is_right_click);
    assert!(!state.drag_drop_fling.is_dragging);
    assert_eq!(state.camera.position, Vec2::new(0.0, 0.0));
}

#[test]
fn a_frame_advances_every_ball_and_every_figure() {
    let mut state = scene();
    assert_eq!(state.spawn_ball(Vec2::new(-4.0, 300.0), Vec2::new(1.0, 0.0), 5.0, 2.5, tint(), 0.0), Ok(()));
    let tuning = Tuning { zero: 0.0, gravity: 1.0, epsilon: 1e-10 };
    let turn = Turn { zero: 0.0, quarter: PI / 2.0, half: PI, full: 2.0 * PI };

    let mut first = Ball::new(Vec2::new(-200.0, -200.0), Vec2::new(50.0, 0.0), 5.0, 2.5, tint(), 0.0).unwrap();
    let mut second = Ball::new(Vec2::new(-4.0, 300.0), Vec2::new(1.0, 0.0), 5.0, 2.5, tint(), 0.0).unwrap();
    first.update(0.01, &state.planet, &tuning, &f32::sqrt);
    second.update(0.01, &state.planet, &tuning, &f32::sqrt);
    let mut walker = state.npcs[0];
    let mut arriver = state.npcs[1];
    walker.update(&turn, 4.0, &heading);
    arriver.update(&turn, 5.0, &heading);

    state.update(0.01, &tuning, &f32::sqrt, &turn, &vec![4.0, 5.0], &heading);
    assert_eq!(state.balls.len(), 2);
    assert_eq!(state.balls[0].position, first.position);
    assert_eq!(state.balls[0].velocity, first.velocity);
    assert_eq!(state.balls[1].position, second.position);
    assert_eq!(state.balls[1].velocity, second.velocity);
    assert!(state.balls[0].position != Vec2::new(-200.0, -200.0));
    assert_eq!(state.balls[0].trail.len(), 1);
    assert_eq!(state.balls[1].trail.len(), 1);
    assert_eq!(state.npcs[0], walker);
    assert_eq!(state.npcs[1], arriver);
    assert_eq!(state.npcs[0].target_angle, PI / 2.0);
    assert_eq!(state.npcs[1].target_angle, 5.0);
    assert_eq!(state.planet.position, Vec2::new(0.0, 0.0));
}

#[test]
fn frame_shows_visible_balls_the_planet_and_the_figures() {
    let mut state = scene();
    assert_eq!(state.spawn_ball(Vec2::new(-300.0, 0.0), Vec2::new(1.0, 0.0), 5.0, 2.5, tint(), 0.0), Ok(()));
    assert_eq!(state.spawn_ball(Vec2::new(0.0, 400.0), Vec2::new(0.0, 1.0), 7.0, 2.5, white(), 0.0), Ok(()));
    let planet = state.planet;
    assert!(!state.balls[0].bounce(&planet, 300.0));
    state.balls[0].position = Vec2::new(-210.0, -200.0);
    assert!(!state.balls[0].bounce(&planet, 290.0));
    assert!(state.balls[1].bounce(&planet, 250.0));

    let frame = state.draw();
    assert_eq!(frame.balls.len(), 2);
    assert_eq!(frame.balls[0].position, Vec2::new(-210.0, -200.0));
    assert_eq!(frame.balls[0].radius, 5.0);
    assert_eq!(
        frame.balls[0].trail,
        vec![Vec2::new(-200.0, -200.0), Vec2::new(-210.0, -200.0)]
    );
    assert_eq!(frame.balls[1].position, Vec2::new(0.0, 400.0));
    assert_eq!(frame.balls[1].radius, 7.0);
    assert_eq!(frame.balls[1].color, white());
    assert_eq!(frame.balls[0].color, tint());
    assert_eq!(frame.planet.color, white());
    assert_eq!(frame.balls[1].trail, Vec::<Vec2<f32>>::new());
    assert_eq!(frame.planet, planet);
    assert_eq!(frame.preview, None);
    assert_eq!(frame.npcs.len(), 2);
    assert_eq!(frame.npcs[0], state.npcs[0].draw());
    assert_eq!(frame.npcs[1], state.npcs[1].draw());
    assert_eq!(frame.npcs[0].position, Vec2::new(250.0, 0.0));
    assert_eq!(frame.npcs[0].rotation, 0.0);
}

#[test]
fn frame_shows_the_preview_line_during_a_drag() {
    let mut state = scene();
    let press = Event::MouseButtonPressed { button: MouseButton::Left, position: Vec2::new(10.0, 20.0) };
    assert_eq!(state.event(press, &controls()), Ok(()));
    let moved = Event::MouseMoved { position: Vec2::new(13.0, 24.0), delta: Vec2::new(3.0, 4.0) };
    assert_eq!(state.event(moved, &controls()), Ok(()));
    assert_eq!(state.draw().preview, Some((Vec2::new(10.0, 20.0), Vec2::new(13.0, 24.0))));
    let release = Event::MouseButtonReleased { button: MouseButton::Left };
    assert_eq!(state.event(release, &controls()), Ok(()));
    assert_eq!(state.draw().preview, None);
}

#[test]
fn frame_of_a_scene_with_only_hidden_balls_shows_none() {
    let mut state = scene();
    let planet = state.planet;
    assert!(state.balls[0].bounce(&planet, 255.0));
    let frame = state.draw();
    assert_eq!(frame.balls.len(), 0);
    assert_eq!(frame.npcs.len(), 2);
}
