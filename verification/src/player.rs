use crate::sprites::Vec3i;
use vstd::prelude::*;

verus! {

/// Height above the origin of the fixed point a fresh player faces.
pub const PLAYER_FACING_HEIGHT: i64 = 1;

/// Angular speed, in whole turn units per second, at which the player turns
/// toward its facing target.
pub const PLAYER_FACING_SPEED: i64 = 1;

/// Player component: where the player is looking, how fast it turns, and its
/// kinematic state. Movement itself is driven by engine-provided input
/// systems outside this crate; here the component is plain data.
#[derive(Clone, Copy, Debug)]
pub struct Player {
    pub facing_target: Vec3i,
    pub facing_speed: i64,
    pub position: Vec3i,
    pub velocity: Vec3i,
}

/// A fresh player faces a fixed point above the origin and is at rest at the
/// origin.
pub open spec fn spec_default_player() -> Player {
    Player {
        facing_target: Vec3i { x: 0, y: PLAYER_FACING_HEIGHT, z: 0 },
        facing_speed: PLAYER_FACING_SPEED,
        position: Vec3i { x: 0, y: 0, z: 0 },
        velocity: Vec3i { x: 0, y: 0, z: 0 },
    }
}

impl Default for Player {
    fn default() -> (p: Player)
        ensures
            p == spec_default_player(),
    {
        Player {
            facing_target: Vec3i { x: 0, y: PLAYER_FACING_HEIGHT, z: 0 },
            facing_speed: PLAYER_FACING_SPEED,
            position: Vec3i { x: 0, y: 0, z: 0 },
            velocity: Vec3i { x: 0, y: 0, z: 0 },
        }
    }
}

} // verus!
