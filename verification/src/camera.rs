//! The camera that follows the player.
//!
//! The camera starts zoomed out to a fixed scale and glides after the
//! player's head every frame: the numpad plus and minus keys stretch the
//! zoom at one unit per second, and the position eases toward the player at
//! a rate set by the lerp factor and the frame time.

use vstd::prelude::*;
use crate::fixed::spec_lerp_milli;
use crate::fixed::lerp_milli;
use crate::mechanical::Transform3;

verus! {

/// How eagerly the camera chases the player, in milli per second.
pub const CAM_LERP_FACTOR: u64 = 3_700;

/// The camera's starting zoom scale, in milli: twice three.
pub const CAMERA_INITIAL_SCALE: i64 = 6_000;

/// The camera's fixed setup: its zoom scale and its render switches.
#[derive(Clone, Copy, Debug, PartialEq, Eq, Structural)]
pub struct CameraSpec {
    pub scale: i64,
    /// High dynamic range output, required by the bloom pass.
    pub hdr: bool,
    pub bloom: bool,
}

/// The camera as the scenes set it up: zoomed out to the starting scale,
/// with high dynamic range and bloom switched on.
pub fn setup_camera() -> (c: CameraSpec)
    ensures
        c == (CameraSpec { scale: CAMERA_INITIAL_SCALE, hdr: true, bloom: true }),
{
    CameraSpec { scale: CAMERA_INITIAL_SCALE, hdr: true, bloom: true }
}

/// One frame of the camera: the zoom keys stretch or shrink the scale by
/// the frame time (milliseconds of a one-per-second rate are exactly milli
/// scale), and the position eases toward the player's ground position by
/// the lerp factor times the frame time, leaving depth untouched.
pub fn update_camera(
    position: Transform3,
    scale: i64,
    player_x: i64,
    player_y: i64,
    scale_up: bool,
    scale_down: bool,
    delta_ms: u64,
) -> (r: (Transform3, i64))
    requires
        delta_ms <= 270_000,
        -1_000_000_000_000 <= position.x <= 1_000_000_000_000,
        -1_000_000_000_000 <= position.y <= 1_000_000_000_000,
        -1_000_000_000_000 <= player_x <= 1_000_000_000_000,
        -1_000_000_000_000 <= player_y <= 1_000_000_000_000,
        -1_000_000_000_000 <= scale <= 1_000_000_000_000,
    ensures
        r.1 == scale + (if scale_up {
            delta_ms as int
        } else {
            0int
        }) - (if scale_down {
            delta_ms as int
        } else {
            0int
        }),
        ({
            let t = delta_ms as int * CAM_LERP_FACTOR as int / 1000;
            r.0.x == spec_lerp_milli(position.x as int, player_x as int, t) && r.0.y
                == spec_lerp_milli(position.y as int, player_y as int, t) && r.0.z == position.z
        }),
{
    let mut new_scale: i64 = scale;
    if scale_up {
        new_scale = new_scale + delta_ms as i64;
    }
    if scale_down {
        new_scale = new_scale - delta_ms as i64;
    }
    let t: u64 = delta_ms * CAM_LERP_FACTOR / 1000;
    let x: i64 = lerp_milli(position.x, player_x, t);
    let y: i64 = lerp_milli(position.y, player_y, t);
    (Transform3 { x, y, z: position.z }, new_scale)
}

} // verus!
