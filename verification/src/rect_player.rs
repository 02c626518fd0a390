//! The rectangle player scene.
//!
//! The simplest player is a red standing rectangle pushed around by a
//! constant force: the movement keys choose the force's direction, a
//! diagonal is cut back toward unit length, and the arrow keys twist the
//! rectangle with a constant torque.

use vstd::prelude::*;
use crate::color::ColorSpec;
use crate::fixed::spec_scale_milli;
use crate::mechanical::GenericMechanicalComponentBundle;
use crate::mechanical::MyRigidBody;
use crate::mechanical::Shape;
use crate::mechanical::Transform3;
use crate::mechanical::Vec2Milli;
use crate::mechanical::spec_bundle;
use crate::steering::INV_SQRT2;
use crate::steering::direction_from_keys;
use crate::steering::normalize_diagonal;
use crate::steering::spec_axis;
use crate::steering::spec_diagonal_xy;

verus! {

/// The rectangle player's width, in milli units; it stands twice as tall.
pub const PLAYER_LENGTH: u64 = 50_000;

/// The force the movement keys push the rectangle with, in milli newtons.
pub const PLAYER_ACCELERATION_FORCE: u64 = 1_000_000;

/// The rectangle player's marker component, carrying its width in milli
/// units and its driving force in milli newtons.
#[derive(Clone, Copy, Debug, PartialEq, Eq, Structural)]
pub struct Player {
    pub length: u64,
    pub accel_force: u64,
}

/// The rectangle player's entity: the marker carrying the scene constants,
/// over a dynamic red rectangle of one unit mass standing one hundred units
/// up.
pub fn spawn_player() -> (p: (Player, GenericMechanicalComponentBundle))
    ensures
        p.0 == (Player { length: PLAYER_LENGTH, accel_force: PLAYER_ACCELERATION_FORCE }),
        p.1 == spec_bundle(
            MyRigidBody::Dynamic { mass: 1_000u64 },
            Shape::Rect { width: PLAYER_LENGTH, height: (2 * PLAYER_LENGTH) as u64 },
            ColorSpec::SrgbU8 { red8: 254u8, green8: 226u8, blue8: 226u8 },
            Transform3 { x: 0i64, y: 100_000i64, z: 0i64 },
        ),
{
    let bundle = GenericMechanicalComponentBundle::new(
        MyRigidBody::Dynamic { mass: 1_000 },
        Shape::Rect { width: PLAYER_LENGTH, height: 2 * PLAYER_LENGTH },
        ColorSpec::SrgbU8 { red8: 254, green8: 226, blue8: 226 },
        Transform3 { x: 0, y: 100_000, z: 0 },
    );
    (Player { length: PLAYER_LENGTH, accel_force: PLAYER_ACCELERATION_FORCE }, bundle)
}

/// The torque direction the arrow keys ask for: one anticlockwise twist for
/// the left arrow (which wins over the right), minus one for the right, zero
/// for neither.
pub open spec fn spec_torque_direction(rotate_left: bool, rotate_right: bool) -> int {
    if rotate_left {
        1
    } else if rotate_right {
        -1
    } else {
        0
    }
}

/// One frame of the rectangle player's steering: the force the movement
/// keys ask for — the keyed direction, a diagonal cut back by
/// [`INV_SQRT2`], scaled by the driving force — and the arrow keys' torque
/// at a hundred times the driving force, both in milli.
pub fn move_player(
    up: bool,
    down: bool,
    left: bool,
    right: bool,
    rotate_left: bool,
    rotate_right: bool,
) -> (r: (Vec2Milli, i64))
    ensures
        ({
            let dx: int = 1000 * spec_axis(left, right);
            let dy: int = 1000 * spec_axis(down, up);
            let nx = if spec_diagonal_xy(dx, dy) {
                spec_scale_milli(dx, INV_SQRT2 as int)
            } else {
                dx
            };
            let ny = if spec_diagonal_xy(dx, dy) {
                spec_scale_milli(dy, INV_SQRT2 as int)
            } else {
                dy
            };
            r.0.x == nx * (PLAYER_ACCELERATION_FORCE / 1000) && r.0.y == ny * (
            PLAYER_ACCELERATION_FORCE / 1000)
        }),
        r.1 == spec_torque_direction(rotate_left, rotate_right) * (PLAYER_ACCELERATION_FORCE
            * 100) as int,
{
    let keyed: Vec2Milli = direction_from_keys(up, down, left, right);
    let dir: Vec2Milli = normalize_diagonal(keyed);
    let force_per_milli: i64 = (PLAYER_ACCELERATION_FORCE / 1000) as i64;
    let force: Vec2Milli = Vec2Milli { x: dir.x * force_per_milli, y: dir.y * force_per_milli };
    let torque_direction: i64 = if rotate_left {
        1
    } else if rotate_right {
        -1
    } else {
        0
    };
    let torque: i64 = torque_direction * ((PLAYER_ACCELERATION_FORCE * 100) as i64);
    (force, torque)
}

} // verus!
