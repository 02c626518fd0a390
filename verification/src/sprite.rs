//! The sprite-ball player scene.
//!
//! One scene drives a single round sprite around a gravity-free stage: the
//! movement keys choose a velocity of fixed speed, and the velocity decays
//! by a tenth every frame the moment the keys fall silent.

use vstd::prelude::*;
use crate::color::ColorSpec;
use crate::fixed::spec_lerp_milli;
use crate::fixed::lerp_milli;
use crate::mechanical::BodyKind;
use crate::mechanical::ColliderShape;
use crate::mechanical::Vec2Milli;
use crate::steering::spec_axis;

verus! {

/// The sprite's edge length, in milli units.
pub const SPRITE_SIZE: u64 = 100_000;

/// The speed the movement keys drive the sprite at, in milli units per
/// second.
pub const SPRITE_PLAYER_SPEED: u64 = 300_000;

/// How far each frame pulls the sprite's velocity toward zero, in milli.
pub const SPRITE_DAMP_FACTOR: u64 = 100;

/// The sprite player's marker component, carrying its speed in milli units
/// per second.
#[derive(Clone, Copy, Debug, PartialEq, Eq, Structural)]
pub struct Player {
    pub speed: u64,
}

/// The sprite player's entity, as plain component values, together with the
/// scene's gravity setting.
#[derive(Clone, Copy, Debug, PartialEq, Eq, Structural)]
pub struct SpritePlayerPlan {
    /// The scene switches gravity off.
    pub gravity: Vec2Milli,
    /// The sprite's colour, an overdriven magenta at half opacity.
    pub color: ColorSpec,
    /// The sprite's square edge length, in milli units.
    pub sprite_size: u64,
    pub kind: BodyKind,
    pub velocity: Vec2Milli,
    pub collider: ColliderShape,
    pub player: Player,
}

/// The sprite player's scene: gravity off, a dynamic ball of half the
/// sprite's size under a half-opaque magenta square sprite, standing still.
pub fn spawn_player() -> (plan: SpritePlayerPlan)
    ensures
        plan == (SpritePlayerPlan {
            gravity: Vec2Milli { x: 0i64, y: 0i64 },
            color: ColorSpec::Srgba { red: 10_000i64, green: 0i64, blue: 10_000i64, alpha: 500i64 },
            sprite_size: SPRITE_SIZE,
            kind: BodyKind::Dynamic,
            velocity: Vec2Milli { x: 0i64, y: 0i64 },
            collider: ColliderShape::Ball { radius: (SPRITE_SIZE / 2) as u64 },
            player: Player { speed: SPRITE_PLAYER_SPEED },
        }),
{
    SpritePlayerPlan {
        gravity: Vec2Milli { x: 0, y: 0 },
        color: ColorSpec::Srgba { red: 10_000, green: 0, blue: 10_000, alpha: 500 },
        sprite_size: SPRITE_SIZE,
        kind: BodyKind::Dynamic,
        velocity: Vec2Milli { x: 0, y: 0 },
        collider: ColliderShape::Ball { radius: SPRITE_SIZE / 2 },
        player: Player { speed: SPRITE_PLAYER_SPEED },
    }
}

/// One frame of the sprite player's movement: whenever any movement key is
/// down the velocity snaps to the keyed direction at the player's speed, and
/// either way it then decays a tenth of the way toward zero.
pub fn player_movement(
    velocity: Vec2Milli,
    speed: u64,
    up: bool,
    down: bool,
    left: bool,
    right: bool,
) -> (v: Vec2Milli)
    requires
        speed <= 1_000_000_000,
        -1_000_000_000_000 <= velocity.x <= 1_000_000_000_000,
        -1_000_000_000_000 <= velocity.y <= 1_000_000_000_000,
    ensures
        ({
            let dx = spec_axis(left, right) * speed;
            let dy = spec_axis(down, up) * speed;
            let chosen_x = if dx == 0 && dy == 0 {
                velocity.x as int
            } else {
                dx
            };
            let chosen_y = if dx == 0 && dy == 0 {
                velocity.y as int
            } else {
                dy
            };
            v.x == spec_lerp_milli(chosen_x, 0, SPRITE_DAMP_FACTOR as int) && v.y
                == spec_lerp_milli(chosen_y, 0, SPRITE_DAMP_FACTOR as int)
        }),
{
    let axis_x: i64 = (if right {
        1i64
    } else {
        0i64
    }) - (if left {
        1i64
    } else {
        0i64
    });
    let axis_y: i64 = (if up {
        1i64
    } else {
        0i64
    }) - (if down {
        1i64
    } else {
        0i64
    });
    let dx: i64 = axis_x * (speed as i64);
    let dy: i64 = axis_y * (speed as i64);
    let (chosen_x, chosen_y): (i64, i64) = if dx == 0 && dy == 0 {
        (velocity.x, velocity.y)
    } else {
        (dx, dy)
    };
    Vec2Milli {
        x: lerp_milli(chosen_x, 0, SPRITE_DAMP_FACTOR),
        y: lerp_milli(chosen_y, 0, SPRITE_DAMP_FACTOR),
    }
}

} // verus!
