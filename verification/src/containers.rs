//! The falling-container scene and the rope demo.
//!
//! One scene drops a tall stack of open containers — a dynamic body whose
//! children are three cuboid walls and a ball — onto a long flat ground,
//! each row nudged slightly left of the one below. A second, tiny scene
//! hangs one dynamic cuboid off a fixed one by a rope. Both are computed
//! here as plain plans.

use vstd::prelude::*;
use crate::chain::RopeJointSpec;
use crate::mechanical::BodyKind;
use crate::mechanical::ColliderShape;
use crate::mechanical::Transform3;
use crate::mechanical::Vec2Milli;

verus! {

/// The ground's half length, in milli units.
pub const GROUND_SIZE: u64 = 500_000;

/// The ground's half height, in milli units.
pub const GROUND_HEIGHT: u64 = 1_000;

/// How many containers stand in each row.
pub const CONTAINERS_PER_ROW: usize = 4;

/// How many rows of containers the stack holds.
pub const CONTAINER_ROWS: usize = 20;

/// The containers' base radius, in milli units: every wall is cut from it.
pub const CONTAINER_RAD: u64 = 2_000;

/// A collider child of a container, at a fixed offset from the container's
/// centre.
#[derive(Clone, Copy, Debug, PartialEq, Eq, Structural)]
pub struct ChildCollider {
    pub offset: Vec2Milli,
    pub shape: ColliderShape,
}

/// One container body: a dynamic rigid body at its place in the stack.
#[derive(Clone, Copy, Debug, PartialEq, Eq, Structural)]
pub struct ContainerBody {
    pub x: i64,
    pub y: i64,
}

/// The container scene: the fixed ground, every container body, and the four
/// collider children every container shares.
#[derive(Clone, Debug, PartialEq, Eq)]
pub struct ContainersPlan {
    pub ground_position: Transform3,
    pub ground_collider: ColliderShape,
    pub bodies: Vec<ContainerBody>,
    pub children: Vec<ChildCollider>,
}

/// The x coordinate of the container at column `i` of row `j`, in milli
/// units: five shifts per column, the stack centred, and every row nudged
/// further left by the row drift.
pub open spec fn container_x(i: int, j: int) -> int {
    i * 50_000 - 32_000 - 300 * j
}

/// The y coordinate of the container at row `j`, in milli units: five shifts
/// per row, lifted clear of the ground.
pub open spec fn container_y(j: int) -> int {
    j * 50_000 + 8_000
}

/// The four collider children of every container: a floor, two walls and a
/// ball, leaving the top open like a glass.
pub open spec fn container_children() -> Seq<ChildCollider> {
    seq![
        ChildCollider {
            offset: Vec2Milli { x: 0i64, y: 0i64 },
            shape: ColliderShape::Cuboid { half_width: 20_000u64, half_height: 2_000u64 },
        },
        ChildCollider {
            offset: Vec2Milli { x: 20_000i64, y: 20_000i64 },
            shape: ColliderShape::Cuboid { half_width: 2_000u64, half_height: 20_000u64 },
        },
        ChildCollider {
            offset: Vec2Milli { x: 20_000i64, y: 20_000i64 },
            shape: ColliderShape::Ball { radius: 10_000u64 },
        },
        ChildCollider {
            offset: Vec2Milli { x: -20_000i64, y: 20_000i64 },
            shape: ColliderShape::Cuboid { half_width: 2_000u64, half_height: 20_000u64 },
        },
    ]
}

/// Lays out the container scene: the ground under the origin, and row upon
/// row of containers, row-major from the bottom, each at its drifted place.
pub fn multi_collider() -> (plan: ContainersPlan)
    ensures
        plan.ground_position == (Transform3 { x: 0i64, y: (-(GROUND_HEIGHT as int)) as i64, z: 0i64 }),
        plan.ground_collider == (ColliderShape::Cuboid {
            half_width: GROUND_SIZE,
            half_height: GROUND_HEIGHT,
        }),
        plan.bodies@.len() == CONTAINER_ROWS * CONTAINERS_PER_ROW,
        forall|idx: int|
            0 <= idx < plan.bodies@.len() ==> #[trigger] plan.bodies@[idx] == (ContainerBody {
                x: container_x(idx % (CONTAINERS_PER_ROW as int), idx / (CONTAINERS_PER_ROW as int)) as i64,
                y: container_y(idx / (CONTAINERS_PER_ROW as int)) as i64,
            }),
        plan.children@ == container_children(),
{
    let mut bodies: Vec<ContainerBody> = Vec::new();
    let mut j: usize = 0;
    while j < CONTAINER_ROWS
        invariant
            j <= CONTAINER_ROWS,
            bodies@.len() == j * CONTAINERS_PER_ROW,
            forall|idx: int|
                0 <= idx < bodies@.len() ==> #[trigger] bodies@[idx] == (ContainerBody {
                    x: container_x(
                        idx % (CONTAINERS_PER_ROW as int),
                        idx / (CONTAINERS_PER_ROW as int),
                    ) as i64,
                    y: container_y(idx / (CONTAINERS_PER_ROW as int)) as i64,
                }),
        decreases CONTAINER_ROWS - j,
    {
        let mut i: usize = 0;
        while i < CONTAINERS_PER_ROW
            invariant
                i <= CONTAINERS_PER_ROW,
                j < CONTAINER_ROWS,
                bodies@.len() == j * CONTAINERS_PER_ROW + i,
                forall|idx: int|
                    0 <= idx < bodies@.len() ==> #[trigger] bodies@[idx] == (ContainerBody {
                        x: container_x(
                            idx % (CONTAINERS_PER_ROW as int),
                            idx / (CONTAINERS_PER_ROW as int),
                        ) as i64,
                        y: container_y(idx / (CONTAINERS_PER_ROW as int)) as i64,
                    }),
            decreases CONTAINERS_PER_ROW - i,
        {
            let x: i64 = (i as i64) * 50_000 - 32_000 - 300 * (j as i64);
            let y: i64 = (j as i64) * 50_000 + 8_000;
            proof {
                vstd::arithmetic::div_mod::lemma_fundamental_div_mod_converse(
                    (j * CONTAINERS_PER_ROW + i) as int,
                    CONTAINERS_PER_ROW as int,
                    j as int,
                    i as int,
                );
            }
            bodies.push(ContainerBody { x, y });
            i = i + 1;
        }
        j = j + 1;
    }
    let mut children: Vec<ChildCollider> = Vec::new();
    children.push(
        ChildCollider {
            offset: Vec2Milli { x: 0, y: 0 },
            shape: ColliderShape::Cuboid { half_width: 20_000, half_height: 2_000 },
        },
    );
    children.push(
        ChildCollider {
            offset: Vec2Milli { x: 20_000, y: 20_000 },
            shape: ColliderShape::Cuboid { half_width: 2_000, half_height: 20_000 },
        },
    );
    children.push(
        ChildCollider {
            offset: Vec2Milli { x: 20_000, y: 20_000 },
            shape: ColliderShape::Ball { radius: 10_000 },
        },
    );
    children.push(
        ChildCollider {
            offset: Vec2Milli { x: -20_000, y: 20_000 },
            shape: ColliderShape::Cuboid { half_width: 2_000, half_height: 20_000 },
        },
    );
    proof {
        assert(children@ =~= container_children());
    }
    ContainersPlan {
        ground_position: Transform3 { x: 0, y: -(GROUND_HEIGHT as i64), z: 0 },
        ground_collider: ColliderShape::Cuboid {
            half_width: GROUND_SIZE,
            half_height: GROUND_HEIGHT,
        },
        bodies,
        children,
    }
}

/// The rope demo's two bodies and joint.
#[derive(Clone, Copy, Debug, PartialEq, Eq, Structural)]
pub struct RopeDemoPlan {
    /// The fixed anchor cuboid, indexed 0 for the joint.
    pub parent_position: Transform3,
    pub parent_kind: BodyKind,
    /// The hanging cuboid, indexed 1 for the joint.
    pub child_position: Transform3,
    pub child_kind: BodyKind,
    /// Both bodies share this square collider.
    pub collider: ColliderShape,
    pub joint: RopeJointSpec,
}

/// The rope demo: a fixed hundred-unit cuboid at the origin, a dynamic twin
/// two hundred units to its left, and a three-hundred-unit rope from the
/// anchor's centre to a point on the twin's right edge.
pub fn rope_joint() -> (plan: RopeDemoPlan)
    ensures
        plan == (RopeDemoPlan {
            parent_position: Transform3 { x: 0i64, y: 0i64, z: 0i64 },
            parent_kind: BodyKind::Fixed,
            child_position: Transform3 { x: -200_000i64, y: 0i64, z: 0i64 },
            child_kind: BodyKind::Dynamic,
            collider: ColliderShape::Cuboid { half_width: 100_000u64, half_height: 100_000u64 },
            joint: RopeJointSpec {
                parent: 0usize,
                child: 1usize,
                rope_length: 300_000u64,
                anchor1: Vec2Milli { x: 0i64, y: 0i64 },
                anchor2: Vec2Milli { x: 100_000i64, y: 0i64 },
            },
        }),
{
    RopeDemoPlan {
        parent_position: Transform3 { x: 0, y: 0, z: 0 },
        parent_kind: BodyKind::Fixed,
        child_position: Transform3 { x: -200_000, y: 0, z: 0 },
        child_kind: BodyKind::Dynamic,
        collider: ColliderShape::Cuboid { half_width: 100_000, half_height: 100_000 },
        joint: RopeJointSpec {
            parent: 0,
            child: 1,
            rope_length: 300_000,
            anchor1: Vec2Milli { x: 0, y: 0 },
            anchor2: Vec2Milli { x: 100_000, y: 0 },
        },
    }
}

} // verus!
