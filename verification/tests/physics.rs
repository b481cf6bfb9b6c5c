use tileworld::physics::{overlap_length, update, Actor, Collider, Solid};
use tileworld::player::Velocity;

fn collider(half_width: i64, half_height: i64) -> Collider {
    Collider::new(half_width, half_height).unwrap()
}

fn actor(x: i64, y: i64, vx: i64, vy: i64, half: i64) -> Actor {
    Actor { x, y, velocity: Velocity { x: vx, y: vy }, collider: collider(half, half) }
}

fn solid(x: i64, y: i64, half: i64) -> Solid {
    Solid { x, y, collider: collider(half, half) }
}

fn shared_x(actor: &Actor, solid: &Solid) -> u64 {
    overlap_length(
        actor.x - actor.collider.half_width(),
        actor.x + actor.collider.half_width(),
        solid.x - solid.collider.half_width(),
        solid.x + solid.collider.half_width(),
    )
}

#[test]
fn colliders_need_extents_above_zero() {
    assert!(Collider::new(1, 1).is_some());
    assert!(Collider::new(0, 1).is_none());
    assert!(Collider::new(1, 0).is_none());
    assert!(Collider::new(-3, 4).is_none());
    assert!(Collider::new(4, i64::MIN).is_none());
    let made = Collider::new(3, 7).unwrap();
    assert_eq!((made.half_width(), made.half_height()), (3, 7));
}

#[test]
fn overlap_is_the_shared_length() {
    assert_eq!(overlap_length(0, 10, 5, 20), 5);
    assert_eq!(overlap_length(5, 20, 0, 10), 5);
    assert_eq!(overlap_length(0, 10, 2, 4), 2);
    assert_eq!(overlap_length(0, 10, 10, 20), 0);
    assert_eq!(overlap_length(0, 10, 11, 20), 0);
    assert_eq!(overlap_length(-27, 37, 8, 72), 29);
    assert_eq!(overlap_length(i64::MIN, i64::MAX, i64::MIN, i64::MAX), u64::MAX);
}

#[test]
fn an_actor_of_width_32_stops_short_of_a_solid_at_40() {
    let mut mover = actor(0, 0, 5, 0, 16);
    let wall = solid(40, 0, 16);
    let before = {
        let mut moved = mover;
        moved.x += 5;
        shared_x(&moved, &wall)
    };
    mover.step(&vec![wall]);
    assert_eq!(before, 0);
    assert_eq!(mover.x, 5);
    assert_eq!(shared_x(&mover, &wall), 0);
}

#[test]
fn an_actor_of_half_extent_32_is_pushed_out_of_a_solid_at_40() {
    let mut mover = actor(0, 0, 5, 0, 32);
    let wall = solid(40, 0, 32);
    let before = {
        let mut moved = mover;
        moved.x += 5;
        shared_x(&moved, &wall)
    };
    mover.step(&vec![wall]);
    assert_eq!(before, 29);
    assert_eq!(mover.x, -24);
    assert_eq!(5 - mover.x, before as i64);
    assert_eq!(shared_x(&mover, &wall), 0);
    assert_eq!(mover.y, 0);
}

#[test]
fn an_actor_that_enters_a_solid_ends_flush_with_it() {
    let mut right = actor(0, 0, 5, 0, 16);
    right.step(&vec![solid(35, 0, 16)]);
    assert_eq!((right.x, right.y), (3, 0));
    let mut left = actor(0, 0, -5, 0, 16);
    left.step(&vec![solid(-35, 0, 16)]);
    assert_eq!((left.x, left.y), (-3, 0));
    let mut up = actor(0, 0, 0, 7, 16);
    up.step(&vec![solid(0, 36, 16)]);
    assert_eq!((up.x, up.y), (0, 4));
    let mut down = actor(0, 0, 0, -7, 16);
    down.step(&vec![solid(0, -36, 16)]);
    assert_eq!((down.x, down.y), (0, -4));
}

#[test]
fn bodies_that_only_touch_do_not_collide() {
    let mut mover = actor(0, 0, 3, 0, 16);
    mover.step(&vec![solid(35, 0, 16)]);
    assert_eq!(mover.x, 3);
    let mut beside = actor(0, 0, 5, 0, 16);
    beside.step(&vec![solid(35, 32, 16)]);
    assert_eq!(beside.x, 5);
}

#[test]
fn without_solids_an_actor_moves_by_its_velocity() {
    let mut mover = actor(10, -4, -3, 9, 16);
    mover.step(&vec![]);
    assert_eq!((mover.x, mover.y), (7, 5));
    assert_eq!(mover.velocity, Velocity { x: -3, y: 9 });
}

#[test]
fn an_actor_at_rest_is_not_pushed_out() {
    let mut still = actor(0, 0, 0, 0, 16);
    still.step(&vec![solid(10, 10, 16)]);
    assert_eq!((still.x, still.y), (0, 0));
    let mut sliding = actor(0, 0, 0, 2, 16);
    sliding.step(&vec![solid(10, 40, 16)]);
    assert_eq!((sliding.x, sliding.y), (0, 2));
}

#[test]
fn the_order_of_the_axes_matters_at_a_corner() {
    let corner = vec![solid(35, 35, 16)];
    let mut x_first = actor(0, 0, 5, 5, 16);
    x_first.resolve_x(&corner);
    x_first.resolve_y(&corner);
    let mut y_first = actor(0, 0, 5, 5, 16);
    y_first.resolve_y(&corner);
    y_first.resolve_x(&corner);
    assert_eq!((x_first.x, x_first.y), (5, 3));
    assert_eq!((y_first.x, y_first.y), (3, 5));
    let mut stepped = actor(0, 0, 5, 5, 16);
    stepped.step(&corner);
    assert_eq!(stepped, x_first);
}

#[test]
fn a_wedged_actor_is_pushed_by_each_solid_in_turn() {
    let mut mover = actor(0, 0, 5, 0, 16);
    mover.step(&vec![solid(35, 0, 16), solid(-28, 0, 16)]);
    assert_eq!(mover.x, 2);
    let mut other = actor(0, 0, 5, 0, 16);
    other.step(&vec![solid(-28, 0, 16), solid(35, 0, 16)]);
    assert_eq!(other.x, 3);
}

#[test]
fn an_actor_deep_inside_a_solid_is_pushed_by_its_own_width_at_most() {
    let mut mover = actor(0, 0, 1, 0, 2);
    mover.step(&vec![solid(0, 0, 50)]);
    assert_eq!(mover.x, -3);
}

#[test]
fn update_moves_every_actor() {
    let mut actors = vec![actor(0, 0, 5, 0, 16), actor(100, 0, -2, 3, 16), actor(0, 0, 0, 0, 1)];
    let solids = vec![solid(35, 0, 16)];
    update(&mut actors, &solids);
    assert_eq!((actors[0].x, actors[0].y), (3, 0));
    assert_eq!((actors[1].x, actors[1].y), (98, 3));
    assert_eq!((actors[2].x, actors[2].y), (0, 0));
    assert_eq!(actors[1].velocity, Velocity { x: -2, y: 3 });
    let mut none: Vec<Actor> = vec![];
    update(&mut none, &solids);
    assert!(none.is_empty());
}

#[test]
fn has_room_tells_whether_a_tick_stays_in_range() {
    assert!(actor(0, 0, 5, 5, 16).has_room(1000));
    assert!(actor(i64::MAX, 0, 0, 0, 16).has_room(0));
    assert!(!actor(i64::MAX, 0, 1, 0, 16).has_room(0));
    assert!(!actor(i64::MAX, 0, 0, 0, 16).has_room(1));
    assert!(actor(i64::MAX - 32, 0, 0, 0, 16).has_room(1));
    assert!(!actor(i64::MAX - 31, 0, 0, 0, 16).has_room(1));
    assert!(!actor(0, i64::MIN, 0, -1, 16).has_room(0));
    assert!(actor(0, i64::MIN + 64, 0, 0, 16).has_room(2));
    assert!(!actor(0, i64::MIN + 63, 0, 0, 16).has_room(2));
    assert!(!actor(0, 0, 0, 0, i64::MAX).has_room(usize::MAX));
}
