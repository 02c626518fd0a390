//! The scrolling tile terrain.
//!
//! The ground is a row of fixed square tiles hanging under the stage, each a
//! gap apart, coloured around the hue circle from left to right. Each tile
//! is one mechanical bundle plus a tile component remembering its colour, so
//! the highlight system can brighten it later.

use vstd::prelude::*;
use crate::color::ColorSpec;
use crate::mechanical::GenericMechanicalComponentBundle;
use crate::mechanical::MyPosition;
use crate::mechanical::MyRigidBody;
use crate::mechanical::Shape;
use crate::mechanical::Transform3;
use crate::mechanical::spec_bundle;

verus! {

/// A terrain tile's edge length, in milli units.
pub const CUBE_LENGTH: u64 = 100_000;

/// The terrain's overall length, in milli units.
pub const TERRAIN_LENGTH: u64 = 2_000_000;

/// The spacing at which tiles are laid out, in milli units.
pub const TERRAIN_SQUARE_SIZE: u64 = 100_000;

/// The gap left between neighbouring tiles, in milli units.
pub const TERRAIN_GAP: u64 = 5_000;

/// How far below the stage's origin the tiles hang, in milli units.
pub const TERRAIN_DEPTH: u64 = 100_000;

/// The saturation of every tile's colour, in milli.
pub const TERRAIN_SATURATION: i64 = 950;

/// The lightness of every tile's colour, in milli.
pub const TERRAIN_LIGHTNESS: i64 = 600;

/// A tile's component, remembering the colour its material was created
/// with.
#[derive(Clone, Copy, Debug, PartialEq, Eq, Structural)]
pub struct Cube {
    pub color: ColorSpec,
}

/// One terrain tile: its component and its mechanical bundle.
#[derive(Clone, Copy, Debug, PartialEq, Eq, Structural)]
pub struct TerrainTile {
    pub cube: Cube,
    pub bundle: GenericMechanicalComponentBundle,
}

/// The whole terrain: a root entity at the origin with one tile child per
/// laid-out square.
#[derive(Clone, Debug, PartialEq, Eq)]
pub struct TerrainPlan {
    pub root: Transform3,
    pub tiles: Vec<TerrainTile>,
}

/// How many tiles the terrain holds: its length divided into squares.
pub open spec fn terrain_tile_count() -> int {
    TERRAIN_LENGTH as int / TERRAIN_SQUARE_SIZE as int
}

/// The hue of tile `i`, in milli degrees: the hue circle walked evenly from
/// left to right.
pub open spec fn terrain_hue(i: int) -> int {
    360_000 * i / terrain_tile_count()
}

/// The colour of tile `i`: its hue at the terrain's fixed saturation and
/// lightness.
pub open spec fn terrain_color(i: int) -> ColorSpec {
    ColorSpec::Hsl {
        hue: terrain_hue(i) as i64,
        saturation: TERRAIN_SATURATION,
        lightness: TERRAIN_LIGHTNESS,
    }
}

/// The x coordinate of tile `i`, in milli units: the row starts half the
/// terrain's length to the left and steps one square plus one gap at a time.
pub open spec fn terrain_x(i: int) -> int {
    -(TERRAIN_LENGTH as int / 2) + (TERRAIN_SQUARE_SIZE + TERRAIN_GAP) * i
}

/// Tile `i` carries its colour on its component and is a fixed square cube
/// of that colour at its place in the row.
pub open spec fn terrain_tile_ok(t: TerrainTile, i: int) -> bool {
    &&& t.cube == (Cube { color: terrain_color(i) })
    &&& t.bundle == spec_bundle(
        MyRigidBody::Fixed,
        Shape::Rect { width: CUBE_LENGTH, height: CUBE_LENGTH },
        terrain_color(i),
        Transform3 { x: terrain_x(i) as i64, y: (-(TERRAIN_DEPTH as int)) as i64, z: 0i64 },
    )
}

/// Builds one terrain tile: the component remembering `color` over a fixed
/// square cube of the common edge length at `position`.
pub fn spawn_cube(color: ColorSpec, position: MyPosition) -> (t: TerrainTile)
    ensures
        t.cube == (Cube { color }),
        t.bundle == spec_bundle(
            MyRigidBody::Fixed,
            Shape::Rect { width: CUBE_LENGTH, height: CUBE_LENGTH },
            color,
            Transform3 { x: position.x, y: position.y, z: 0i64 },
        ),
{
    let transform = position.to_transform();
    TerrainTile {
        cube: Cube { color },
        bundle: GenericMechanicalComponentBundle::new(
            MyRigidBody::Fixed,
            Shape::Rect { width: CUBE_LENGTH, height: CUBE_LENGTH },
            color,
            transform,
        ),
    }
}

/// Lays out the terrain: a root at the origin and the full row of tiles,
/// each at its place with its hue.
pub fn spawn_terrain() -> (plan: TerrainPlan)
    ensures
        plan.root == (Transform3 { x: 0i64, y: 0i64, z: 0i64 }),
        plan.tiles@.len() == terrain_tile_count(),
        forall|i: int| 0 <= i < plan.tiles@.len() ==> terrain_tile_ok(#[trigger] plan.tiles@[i], i),
{
    let count: u64 = TERRAIN_LENGTH / TERRAIN_SQUARE_SIZE;
    let half: i64 = (TERRAIN_LENGTH / 2) as i64;
    let step: i64 = (TERRAIN_SQUARE_SIZE + TERRAIN_GAP) as i64;
    let mut tiles: Vec<TerrainTile> = Vec::new();
    let mut i: u64 = 0;
    while i < count
        invariant
            i <= count,
            count == terrain_tile_count(),
            count <= TERRAIN_LENGTH,
            half == TERRAIN_LENGTH / 2,
            step == TERRAIN_SQUARE_SIZE + TERRAIN_GAP,
            tiles@.len() == i,
            forall|j: int| 0 <= j < tiles@.len() ==> terrain_tile_ok(#[trigger] tiles@[j], j),
        decreases count - i,
    {
        let hue: i64 = ((360_000u64 * i) / count) as i64;
        let color = ColorSpec::Hsl {
            hue,
            saturation: TERRAIN_SATURATION,
            lightness: TERRAIN_LIGHTNESS,
        };
        proof {
            assert(0 <= step as int * i as int <= 1_000_000_000_000) by (nonlinear_arith)
                requires
                    0 <= step <= 200_000,
                    0 <= i <= 2_000_000,
            ;
        }
        let x: i64 = -half + step * (i as i64);
        let tile = spawn_cube(color, MyPosition { x, y: -(TERRAIN_DEPTH as i64) });
        tiles.push(tile);
        i = i + 1;
    }
    TerrainPlan { root: Transform3 { x: 0, y: 0, z: 0 }, tiles }
}

} // verus!
