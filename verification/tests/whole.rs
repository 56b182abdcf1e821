use planet_game::ball::{get_force_of_gravity, Ball, Tuning};
use planet_game::drag_drop_fling::Drag_drop_fling;
use planet_game::npc::{Npc, Turn};
use planet_game::planet::{Color, Planet};
use planet_game::vector::Vec2;
use planet_game::whole::Whole;

fn w(value: i64) -> Whole {
    Whole { value }
}

fn shade() -> Color<Whole> {
    Color { r: w(255), g: w(128), b: w(0), a: w(255) }
}

fn at(x: i64, y: i64) -> Vec2<Whole> {
    Vec2::new(w(x), w(y))
}

#[test]
fn whole_numbers_wrap_around() {
    assert_eq!((w(2) + w(3)).value, 5);
    assert_eq!((w(i64::MAX) + w(1)).value, i64::MIN);
    assert_eq!((w(2) - w(3)).value, -1);
    assert_eq!((w(i64::MIN) - w(1)).value, i64::MAX);
    assert_eq!((w(-4) * w(5)).value, -20);
    assert_eq!((w(i64::MAX) * w(2)).value, -2);
}

#[test]
fn whole_division_is_defined_everywhere() {
    assert_eq!((w(7) / w(2)).value, 3);
    assert_eq!((w(-7) / w(2)).value, -3);
    assert_eq!((w(7) % w(2)).value, 1);
    assert_eq!((w(-7) % w(2)).value, -1);
    assert_eq!((w(7) / w(0)).value, 0);
    assert_eq!((w(7) % w(0)).value, 0);
    assert_eq!((w(i64::MIN) / w(-1)).value, i64::MIN);
    assert_eq!((w(i64::MIN) % w(-1)).value, 0);
}

#[test]
fn whole_numbers_compare_by_value() {
    assert!(w(1) < w(2));
    assert!(w(2) <= w(2));
    assert!(w(3) > w(2));
    assert!(w(2) == w(2));
    assert!(w(2) != w(-2));
}

#[test]
fn physics_on_whole_numbers() {
    let tuning = Tuning { zero: w(0), gravity: w(1), epsilon: w(1) };
    let mut ball = Ball::new(at(-4, 0), at(1, 0), w(1), w(2), shade(), w(0)).unwrap();
    let planet = Planet::new(at(0, 0), w(3), w(8), shade(), w(0)).unwrap();
    let force = get_force_of_gravity(&ball, &planet, w(4), &tuning);
    assert_eq!((force.x.value, force.y.value), (1, 0));
    ball.fall(&planet, w(4), w(2), &tuning);
    assert_eq!((ball.velocity.x.value, ball.velocity.y.value), (1, 0));
    assert_eq!((ball.position.x.value, ball.position.y.value), (-2, 0));
    assert!(ball.bounce(&planet, w(2)));
    assert!(!ball.is_visable);
    assert_eq!((ball.velocity.x.value, ball.velocity.y.value), (-1, 0));
    assert_eq!((ball.position.x.value, ball.position.y.value), (-4, 0));
}

#[test]
fn gesture_on_whole_numbers() {
    let mut gesture = Drag_drop_fling::new(w(0));
    gesture.start_drag(at(0, 0));
    gesture.update_drag(at(3, 4));
    let launch = gesture.end_drag();
    assert_eq!((launch.x.value, launch.y.value), (3, 4));
}

#[test]
fn walk_on_whole_degrees() {
    let turn = Turn { zero: w(0), quarter: w(90), half: w(180), full: w(360) };
    let mut npc = Npc::new(at(0, 0), w(10), w(0), w(90), w(7), w(0), at(1, 0));
    let mut gap = 90;
    let mut ticks = 0;
    while npc.target_angle.value == 90 {
        npc.advance(&turn, w(45));
        ticks += 1;
        if npc.target_angle.value == 90 {
            let now = (90 - npc.current_angle.value + 360) % 360;
            assert!(now < gap);
            gap = now;
        }
    }
    assert_eq!(ticks, 13);
    assert_eq!(npc.current_angle.value, 90);
    assert_eq!(npc.target_angle.value, 45);
    assert_eq!(npc.rotation.value, 180);

    let mut back = Npc::new(at(0, 0), w(10), w(3), w(270), w(7), w(0), at(1, 0));
    back.advance(&turn, w(45));
    assert_eq!(back.current_angle.value, 356);
}

#[test]
fn figure_on_its_target_on_whole_degrees_takes_a_fresh_target() {
    let turn = Turn { zero: w(0), quarter: w(90), half: w(180), full: w(360) };
    let mut npc = Npc::new(at(0, 0), w(10), w(90), w(90), w(1), w(0), at(0, 1));
    assert!(npc.arrives(&turn));
    npc.advance(&turn, w(45));
    assert_eq!(npc.current_angle.value, 90);
    assert_eq!(npc.target_angle.value, 45);
    assert_eq!(npc.rotation.value, 180);
}
