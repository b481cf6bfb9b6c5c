use tileworld::physics::Collider;
use tileworld::player::{handle_input, Acceleration, Directions, PlayerBundle, Velocity};

fn held(left: bool, right: bool, up: bool, down: bool) -> Directions {
    Directions { left, right, up, down }
}

fn after(input: Directions, x: i64, y: i64) -> (i64, i64) {
    let mut velocity = Velocity { x, y };
    handle_input(input, &mut velocity);
    (velocity.x, velocity.y)
}

#[test]
fn nothing_held_brings_the_player_to_rest() {
    assert_eq!(after(held(false, false, false, false), 7, -9), (0, 0));
}

#[test]
fn left_and_right_steer_along_x() {
    assert_eq!(after(held(true, false, false, false), 0, 0), (-1, 0));
    assert_eq!(after(held(false, true, false, false), 0, 0), (1, 0));
    assert_eq!(after(held(true, false, false, false), -12, 0), (-12, 0));
    assert_eq!(after(held(true, false, false, false), -11, 0), (-12, 0));
    assert_eq!(after(held(false, true, false, false), 12, 0), (12, 0));
    assert_eq!(after(held(false, true, false, false), 11, 0), (12, 0));
}

#[test]
fn up_and_down_steer_along_y() {
    assert_eq!(after(held(false, false, true, false), 0, 0), (0, 1));
    assert_eq!(after(held(false, false, false, true), 0, 0), (0, -1));
    assert_eq!(after(held(false, false, true, false), 0, 32), (0, 32));
    assert_eq!(after(held(false, false, true, false), 0, 31), (0, 32));
    assert_eq!(after(held(false, false, false, true), 0, -32), (0, -32));
    assert_eq!(after(held(false, false, false, true), 0, -31), (0, -32));
}

#[test]
fn left_wins_over_right_and_up_over_down() {
    assert_eq!(after(held(true, true, true, true), 3, 3), (2, 4));
}

#[test]
fn a_speed_beyond_the_limit_is_cut_on_one_side_only() {
    assert_eq!(after(held(true, false, false, true), 100, 100), (99, 99));
    assert_eq!(after(held(false, true, true, false), 100, 100), (12, 32));
    assert_eq!(after(held(true, false, false, true), -100, -100), (-12, -32));
    assert_eq!(after(held(false, true, true, false), -100, -100), (-99, -99));
}

#[test]
fn the_ends_of_the_range_do_not_overflow() {
    assert_eq!(after(held(true, false, false, true), i64::MIN, i64::MIN), (-12, -32));
    assert_eq!(after(held(false, true, true, false), i64::MAX, i64::MAX), (12, 32));
    assert_eq!(after(held(true, false, false, true), i64::MAX, i64::MAX), (i64::MAX - 1, i64::MAX - 1));
}

#[test]
fn the_player_starts_at_rest_at_the_origin() {
    let bundle = PlayerBundle::default();
    assert_eq!((bundle.actor.x, bundle.actor.y), (0, 0));
    assert_eq!(bundle.actor.velocity, Velocity { x: 0, y: 0 });
    assert_eq!(bundle.actor.collider, Collider::new(16, 16).unwrap());
    assert_eq!(bundle.acceleration, Acceleration { x: 0, y: 0 });
    assert_eq!(Velocity::default(), Velocity { x: 0, y: 0 });
}
