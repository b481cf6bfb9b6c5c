//! The player's motion: how held directions change its velocity.
use vstd::prelude::*;
use crate::physics::{Actor, Collider};

verus! {

/// The distance that an actor moves in one tick, along each axis.
#[derive(Clone, Copy, Debug, PartialEq, Eq, Structural)]
pub struct Velocity {
    pub x: i64,
    pub y: i64,
}

/// The change of a velocity in one tick, along each axis.
#[derive(Clone, Copy, Debug, PartialEq, Eq, Structural)]
pub struct Acceleration {
    pub x: i64,
    pub y: i64,
}

impl Default for Velocity {
    fn default() -> (velocity: Velocity)
        ensures
            velocity == (Velocity { x: 0, y: 0 }),
    {
        Velocity { x: 0, y: 0 }
    }
}

impl Default for Acceleration {
    fn default() -> (acceleration: Acceleration)
        ensures
            acceleration == (Acceleration { x: 0, y: 0 }),
    {
        Acceleration { x: 0, y: 0 }
    }
}

/// The directions that are held down.
#[derive(Clone, Copy, Debug, PartialEq, Eq, Structural)]
pub struct Directions {
    pub left: bool,
    pub right: bool,
    pub up: bool,
    pub down: bool,
}

/// The fastest that the player moves along x.
pub const MAX_SPEED_X: i64 = 12;

/// The fastest that the player moves along y.
pub const MAX_SPEED_Y: i64 = 32;

/// A speed one lower, but not below `-limit`.
pub open spec fn slower(speed: int, limit: int) -> int {
    if speed - 1 >= -limit {
        speed - 1
    } else {
        -limit
    }
}

/// A speed one higher, but not above `limit`.
pub open spec fn faster(speed: int, limit: int) -> int {
    if speed + 1 <= limit {
        speed + 1
    } else {
        limit
    }
}

/// A speed one lower, but not below `-limit`.
fn slow_down(speed: i64, limit: i64) -> (next: i64)
    requires
        0 <= limit,
    ensures
        next == slower(speed as int, limit as int),
{
    if speed > -limit {
        speed - 1
    } else {
        -limit
    }
}

/// A speed one higher, but not above `limit`.
fn speed_up(speed: i64, limit: i64) -> (next: i64)
    requires
        0 <= limit,
    ensures
        next == faster(speed as int, limit as int),
{
    if speed < limit {
        speed + 1
    } else {
        limit
    }
}

/// Changes the player's velocity by the directions that are held.
///
/// Along x, left makes the player slower by one and right faster by one;
/// along y, up makes it faster and down slower. Where both directions of an
/// axis are held, left and up win. An axis with no direction held comes to
/// rest at once.
pub fn handle_input(input: Directions, velocity: &mut Velocity)
    ensures
        final(velocity).x == if input.left {
            slower(old(velocity).x as int, MAX_SPEED_X as int)
        } else if input.right {
            faster(old(velocity).x as int, MAX_SPEED_X as int)
        } else {
            0
        },
        final(velocity).y == if input.up {
            faster(old(velocity).y as int, MAX_SPEED_Y as int)
        } else if input.down {
            slower(old(velocity).y as int, MAX_SPEED_Y as int)
        } else {
            0
        },
{
    velocity.x = if input.left {
        slow_down(velocity.x, MAX_SPEED_X)
    } else if input.right {
        speed_up(velocity.x, MAX_SPEED_X)
    } else {
        0
    };
    velocity.y = if input.up {
        speed_up(velocity.y, MAX_SPEED_Y)
    } else if input.down {
        slow_down(velocity.y, MAX_SPEED_Y)
    } else {
        0
    };
}

/// The mark of the actor that the player steers.
#[derive(Clone, Copy, Debug, Default, PartialEq, Eq)]
pub struct Player;

/// What the player is made of.
#[derive(Clone, Copy, Debug, PartialEq, Eq)]
pub struct PlayerBundle {
    pub player: Player,
    pub actor: Actor,
    pub acceleration: Acceleration,
}

impl PlayerBundle {
    /// Half the side of the player's square.
    pub const HALF_SIZE: i64 = 16;
}

impl Default for PlayerBundle {
    /// The player at rest at the origin.
    fn default() -> (bundle: PlayerBundle)
        ensures
            bundle.actor.x == 0,
            bundle.actor.y == 0,
            bundle.actor.velocity == (Velocity { x: 0, y: 0 }),
            bundle.actor.collider.spec_half_width() == PlayerBundle::HALF_SIZE,
            bundle.actor.collider.spec_half_height() == PlayerBundle::HALF_SIZE,
            bundle.acceleration == (Acceleration { x: 0, y: 0 }),
    {
        PlayerBundle {
            player: Player,
            actor: Actor {
                x: 0,
                y: 0,
                velocity: Velocity::default(),
                collider: Collider::new(PlayerBundle::HALF_SIZE, PlayerBundle::HALF_SIZE).unwrap(),
            },
            acceleration: Acceleration::default(),
        }
    }
}

} // verus!
