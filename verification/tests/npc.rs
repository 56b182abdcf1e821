use planet_game::npc::{Npc, Sprite, Turn};
use planet_game::vector::Vec2;
use std::f32::consts::PI;

fn turn() -> Turn<f32> {
    Turn { zero: 0.0, quarter: PI / 2.0, half: PI, full: 2.0 * PI }
}

fn heading(angle: f32) -> Vec2<f32> {
    Vec2::new(angle.cos(), angle.sin())
}

fn npc_at(current: f32, target: f32) -> Npc<f32> {
    Npc::new(Vec2::new(10.0, 20.0), 250.0, current, target, 0.001, 0.0, heading(current))
}

fn gap(npc: &Npc<f32>) -> f32 {
    (npc.target_angle - npc.current_angle + 2.0 * PI) % (2.0 * PI)
}

#[test]
fn new_npc_stands_on_its_orbit() {
    let npc = npc_at(0.0, PI / 2.0);
    assert_eq!(npc.position, Vec2::new(260.0, 20.0));
    assert_eq!(npc.rotation, 0.0);
    assert_eq!(npc.orbit_center, Vec2::new(10.0, 20.0));
    assert_eq!(npc.orbit_radius, 250.0);
    assert_eq!(npc.current_angle, 0.0);
    assert_eq!(npc.target_angle, PI / 2.0);
    assert_eq!(npc.angular_velocity, 0.001);
}

#[test]
fn orbit_point_is_centre_plus_radius_times_direction() {
    let point = Npc::calculate_position(Vec2::new(1.0_f32, 2.0), 4.0, Vec2::new(0.5, -0.25));
    assert_eq!(point, Vec2::new(3.0, 1.0));
}

#[test]
fn npc_steps_forward_toward_a_target_ahead() {
    let mut npc = npc_at(0.0, PI / 2.0);
    npc.update(&turn(), 5.0, &heading);
    let expected = (0.0_f32 + 0.001 + 2.0 * PI) % (2.0 * PI);
    assert_eq!(npc.current_angle, expected);
    assert!((npc.current_angle - 0.001).abs() < 1e-6);
    assert_eq!(npc.target_angle, PI / 2.0);
    assert_eq!(npc.rotation, expected + PI / 2.0);
    assert_eq!(
        npc.position,
        Vec2::new(10.0 + 250.0 * expected.cos(), 20.0 + 250.0 * expected.sin())
    );
}

#[test]
fn npc_steps_backward_toward_a_target_behind() {
    let mut npc = npc_at(0.0, 1.5 * PI);
    npc.update(&turn(), 5.0, &heading);
    let expected = (0.0_f32 - 0.001 + 2.0 * PI) % (2.0 * PI);
    assert_eq!(npc.current_angle, expected);
    assert!((npc.current_angle - (2.0 * PI - 0.001)).abs() < 1e-5);
    assert_eq!(npc.target_angle, 1.5 * PI);
}

#[test]
fn npc_goes_forward_at_half_a_turn() {
    let mut npc = npc_at(0.0, PI);
    assert!(gap(&npc) <= PI);
    npc.advance(&turn(), 5.0);
    assert!((npc.current_angle - 0.001).abs() < 1e-6);
}

#[test]
fn npc_on_its_target_takes_a_fresh_target() {
    let mut npc = npc_at(1.0, 1.0);
    assert_eq!(gap(&npc), 0.0);
    assert!(npc.arrives(&turn()));
    npc.advance(&turn(), 5.0);
    assert_eq!(npc.current_angle, (1.0_f32 + 2.0 * PI) % (2.0 * PI));
    assert!((npc.current_angle - 1.0).abs() < 1e-6);
    assert_eq!(npc.target_angle, 5.0);
}

#[test]
fn npc_arrives_within_one_step_only() {
    assert!(npc_at(1.0, 1.0005).arrives(&turn()));
    assert!(!npc_at(1.0, 1.002).arrives(&turn()));
    assert!(!npc_at(1.0, 0.9995).arrives(&turn()));
    assert!(!npc_at(0.0, PI / 2.0).arrives(&turn()));
}

#[test]
fn npc_snaps_within_one_step_and_takes_the_fresh_target() {
    let mut npc = npc_at(1.0, 1.0005);
    npc.advance(&turn(), 5.0);
    assert_eq!(npc.current_angle, (1.0005_f32 + 2.0 * PI) % (2.0 * PI));
    assert_eq!(npc.target_angle, 5.0);
    assert_eq!(npc.position, npc_at(1.0, 1.0005).position);
}

#[test]
fn npc_closes_the_gap_every_tick_until_it_snaps() {
    let mut npc = npc_at(0.0, PI / 2.0);
    let fresh: f32 = 4.25;
    let mut ticks = 0;
    loop {
        ticks += 1;
        assert!(ticks < 5_000);
        let before = gap(&npc);
        npc.update(&turn(), fresh, &heading);
        if npc.target_angle != PI / 2.0 {
            break;
        }
        assert!(gap(&npc) < before);
    }
    assert_eq!(npc.target_angle, fresh);
    assert!(fresh >= 0.0 && fresh < 2.0 * PI);
    assert!((npc.current_angle - PI / 2.0).abs() < 1e-5);
    assert!(ticks >= 1_570 && ticks <= 1_573);
}

#[test]
fn npc_angle_stays_within_one_turn() {
    let mut npc = npc_at(0.0005, 1.5 * PI);
    for _ in 0..20 {
        npc.update(&turn(), 3.0, &heading);
        assert!(npc.current_angle >= 0.0 && npc.current_angle < 2.0 * PI);
    }
}

#[test]
fn place_moves_only_the_position() {
    let mut npc = npc_at(0.0, 1.0);
    npc.place(Vec2::new(0.0, 1.0));
    assert_eq!(npc.position, Vec2::new(10.0, 270.0));
    assert_eq!(npc.current_angle, 0.0);
    assert_eq!(npc.target_angle, 1.0);
}

#[test]
fn update_target_angle_sets_the_target() {
    let mut npc = npc_at(0.0, 1.0);
    npc.update_target_angle(2.5);
    assert_eq!(npc.target_angle, 2.5);
    assert_eq!(npc.current_angle, 0.0);
}

#[test]
fn npc_sprite_faces_along_the_orbit() {
    let mut npc = npc_at(0.0, 1.0);
    npc.update(&turn(), 3.0, &heading);
    assert_eq!(npc.draw(), Sprite { position: npc.position, rotation: npc.current_angle + PI / 2.0 });
}
