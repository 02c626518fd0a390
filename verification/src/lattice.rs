//! The jointed block lattice.
//!
//! Two scenes hang a rectangular lattice of small blocks from a row of
//! anchors: every block is tied to the block above it and to the block on
//! its left with revolute joints, the top block of every fourth column and
//! of the last column is fixed in place, and — in the scene that tears the
//! lattice apart — the joints along the middle row and along the anchored
//! columns are marked to be despawned when a timer runs out. This module
//! computes the lattice as a plan of bodies and joints.
//!
//! Cells are laid out column by column, top to bottom: the body of column
//! `k`, row `i` has index `k * rows + i`, and its joints follow the joints
//! of all earlier cells, the vertical one first.

use vstd::prelude::*;
use vstd::arithmetic::div_mod::lemma_div_multiples_vanish;
use vstd::arithmetic::div_mod::lemma_div_multiples_vanish_fancy;
use vstd::arithmetic::div_mod::lemma_div_pos_is_pos;
use vstd::arithmetic::div_mod::lemma_fundamental_div_mod;
use vstd::arithmetic::div_mod::lemma_fundamental_div_mod_converse;
use vstd::arithmetic::div_mod::lemma_mod_bound;
use crate::mechanical::BodyKind;
use crate::mechanical::Vec2Milli;

verus! {

/// How many rows of blocks the lattice scenes use.
pub const LATTICE_ROWS: usize = 40;

/// How many columns of blocks the lattice scenes use.
pub const LATTICE_COLUMNS: usize = 40;

/// The spacing between neighbouring blocks in the lattice scenes, in milli
/// units.
pub const LATTICE_SHIFT: u64 = 10_000;

/// The half extent of a lattice block's square collider in the lattice
/// scenes, in milli units.
pub const LATTICE_HALF_EXTENT: u64 = 4_000;

/// One block of the lattice: its position, whether it is fixed or dynamic,
/// and the half extent of its square collider.
#[derive(Clone, Copy, Debug, PartialEq, Eq, Structural)]
pub struct LatticeBody {
    pub x: i64,
    pub y: i64,
    pub kind: BodyKind,
    pub half_extent: u64,
}

/// A revolute joint: the indices of the two bodies it ties, the local
/// anchors on each, and whether the tearing scene despawns it.
#[derive(Clone, Copy, Debug, PartialEq, Eq, Structural)]
pub struct RevoluteJointSpec {
    pub parent: usize,
    pub child: usize,
    pub anchor1: Vec2Milli,
    pub anchor2: Vec2Milli,
    pub marked_for_despawn: bool,
}

/// The whole lattice: its bodies in layout order and its joints in creation
/// order.
#[derive(Clone, Debug, PartialEq, Eq)]
pub struct LatticePlan {
    pub bodies: Vec<LatticeBody>,
    pub joints: Vec<RevoluteJointSpec>,
}

/// Whether the block of column `k`, row `i` is fixed in place: only the top
/// block of every fourth column and of the last column.
pub open spec fn cell_fixed(columns: int, k: int, i: int) -> bool {
    i == 0 && (k % 4 == 0 || k == columns - 1)
}

/// Whether the joints of the cell at column `k`, row `i` are marked for the
/// tearing scene: the middle row, every fourth column, and the last column.
pub open spec fn cell_marked(rows: int, columns: int, k: int, i: int) -> bool {
    i == rows / 2 || k % 4 == 0 || k == columns - 1
}

/// The joints created for the cell at column `k`, row `i`: a vertical joint
/// to the block above it whenever it is not in the top row, then a
/// horizontal joint to the block on its left whenever it is not in the first
/// column.
pub open spec fn cell_joints(rows: int, columns: int, shift: int, k: int, i: int) -> Seq<
    RevoluteJointSpec,
> {
    let idx = k * rows + i;
    let mark = cell_marked(rows, columns, k, i);
    let vertical: Seq<RevoluteJointSpec> = if i > 0 {
        seq![
            RevoluteJointSpec {
                parent: (idx - 1) as usize,
                child: idx as usize,
                anchor1: Vec2Milli { x: 0i64, y: 0i64 },
                anchor2: Vec2Milli { x: 0i64, y: shift as i64 },
                marked_for_despawn: mark,
            },
        ]
    } else {
        Seq::empty()
    };
    let horizontal: Seq<RevoluteJointSpec> = if k > 0 {
        seq![
            RevoluteJointSpec {
                parent: (idx - rows) as usize,
                child: idx as usize,
                anchor1: Vec2Milli { x: 0i64, y: 0i64 },
                anchor2: Vec2Milli { x: (-shift) as i64, y: 0i64 },
                marked_for_despawn: mark,
            },
        ]
    } else {
        Seq::empty()
    };
    vertical + horizontal
}

/// The joints of the first `cells` cells, in creation order.
pub open spec fn lattice_joints_prefix(rows: int, columns: int, shift: int, cells: int) -> Seq<
    RevoluteJointSpec,
>
    decreases cells,
{
    if cells <= 0 {
        Seq::empty()
    } else {
        lattice_joints_prefix(rows, columns, shift, cells - 1) + cell_joints(
            rows,
            columns,
            shift,
            (cells - 1) / rows,
            (cells - 1) % rows,
        )
    }
}

/// How many joints the first `cells` cells create: one vertical joint for
/// every cell off the top row, one horizontal joint for every cell off the
/// first column.
pub open spec fn lattice_joint_count(rows: int, cells: int) -> int {
    (cells - (cells + rows - 1) / rows) + (if cells >= rows {
        cells - rows
    } else {
        0
    })
}

/// The joint sequence of the first `cells` cells has exactly
/// [`lattice_joint_count`] entries.
pub proof fn lemma_lattice_joint_count(rows: int, columns: int, shift: int, cells: int)
    requires
        1 <= rows,
        0 <= cells,
    ensures
        lattice_joints_prefix(rows, columns, shift, cells).len() == lattice_joint_count(
            rows,
            cells,
        ),
    decreases cells,
{
    if cells == 0 {
        lemma_div_multiples_vanish_fancy(0, rows - 1, rows);
        assert(rows * 0 + (rows - 1) == rows - 1);
    } else {
        lemma_lattice_joint_count(rows, columns, shift, cells - 1);
        let c = cells - 1;
        let q = c / rows;
        let r = c % rows;
        lemma_fundamental_div_mod(c, rows);
        lemma_mod_bound(c, rows);
        lemma_div_pos_is_pos(c, rows);
        assert(rows * (q + 1) == rows * q + rows) by (nonlinear_arith);
        if r == 0 {
            lemma_div_multiples_vanish_fancy(q, rows - 1, rows);
            lemma_div_multiples_vanish(q + 1, rows);
            assert((c + rows - 1) / rows == q);
            assert((cells + rows - 1) / rows == q + 1);
        } else {
            lemma_div_multiples_vanish_fancy(q + 1, r - 1, rows);
            lemma_div_multiples_vanish_fancy(q + 1, r, rows);
            assert((c + rows - 1) / rows == q + 1);
            assert((cells + rows - 1) / rows == q + 1);
        }
        if q >= 1 {
            assert(rows * q >= rows) by (nonlinear_arith)
                requires
                    1 <= q,
                    1 <= rows,
            ;
        } else {
            assert(c < rows);
        }
    }
}

/// The body with layout index `idx` stands `idx / rows` columns right and
/// `idx % rows` rows below the lattice's top left corner, fixed exactly on
/// the anchor cells, with the common square collider.
pub open spec fn lattice_body_ok(
    b: LatticeBody,
    rows: int,
    columns: int,
    shift: int,
    half_extent: int,
    idx: int,
) -> bool {
    let k = idx / rows;
    let i = idx % rows;
    &&& b.x == k * shift
    &&& b.y == -(i * shift)
    &&& b.kind == (if cell_fixed(columns, k, i) {
        BodyKind::Fixed
    } else {
        BodyKind::Dynamic
    })
    &&& b.half_extent == half_extent
}

/// Lays out a lattice of `rows * columns` blocks spaced by `shift`, with a
/// square collider of the given half extent on each, the anchor blocks
/// fixed, and the vertical and horizontal joints of every cell in creation
/// order.
pub fn lattice_plan(rows: usize, columns: usize, shift: u64, half_extent: u64) -> (plan:
    LatticePlan)
    requires
        1 <= rows,
        1 <= columns,
        rows * columns <= 1_000_000,
        shift <= 1_000_000_000,
    ensures
        plan.bodies@.len() == rows * columns,
        forall|idx: int|
            0 <= idx < plan.bodies@.len() ==> lattice_body_ok(
                #[trigger] plan.bodies@[idx],
                rows as int,
                columns as int,
                shift as int,
                half_extent as int,
                idx,
            ),
        plan.joints@ == lattice_joints_prefix(
            rows as int,
            columns as int,
            shift as int,
            (rows * columns) as int,
        ),
        plan.joints@.len() == 2 * (rows * columns) - rows - columns,
{
    let mut bodies: Vec<LatticeBody> = Vec::new();
    let mut joints: Vec<RevoluteJointSpec> = Vec::new();
    proof {
        assert(columns <= rows * columns) by (nonlinear_arith)
            requires
                1 <= rows,
                0 <= columns,
        ;
        assert(rows <= rows * columns) by (nonlinear_arith)
            requires
                0 <= rows,
                1 <= columns,
        ;
    }
    let mut k: usize = 0;
    while k < columns
        invariant
            k <= columns,
            1 <= rows <= 1_000_000,
            1 <= columns <= 1_000_000,
            rows * columns <= 1_000_000,
            shift <= 1_000_000_000,
            bodies@.len() == k * rows,
            forall|idx: int|
                0 <= idx < bodies@.len() ==> lattice_body_ok(
                    #[trigger] bodies@[idx],
                    rows as int,
                    columns as int,
                    shift as int,
                    half_extent as int,
                    idx,
                ),
            joints@ == lattice_joints_prefix(
                rows as int,
                columns as int,
                shift as int,
                (k * rows) as int,
            ),
        decreases columns - k,
    {
        proof {
            assert(k * rows + rows <= rows * columns) by (nonlinear_arith)
                requires
                    0 <= k < columns,
                    0 <= rows,
            ;
        }
        let mut i: usize = 0;
        while i < rows
            invariant
                i <= rows,
                k < columns,
                1 <= rows <= 1_000_000,
                1 <= columns <= 1_000_000,
                rows * columns <= 1_000_000,
                shift <= 1_000_000_000,
                k * rows + rows <= rows * columns,
                bodies@.len() == k * rows + i,
                forall|idx: int|
                    0 <= idx < bodies@.len() ==> lattice_body_ok(
                        #[trigger] bodies@[idx],
                        rows as int,
                        columns as int,
                        shift as int,
                        half_extent as int,
                        idx,
                    ),
                joints@ == lattice_joints_prefix(
                    rows as int,
                    columns as int,
                    shift as int,
                    (k * rows + i) as int,
                ),
            decreases rows - i,
        {
            let idx: usize = k * rows + i;
            proof {
                lemma_fundamental_div_mod_converse(idx as int, rows as int, k as int, i as int);
            }
            let fixed: bool = i == 0 && (k % 4 == 0 || k == columns - 1);
            proof {
                assert(k as int * shift as int <= 1_000_000 * 1_000_000_000) by (nonlinear_arith)
                    requires
                        0 <= k <= 1_000_000,
                        0 <= shift <= 1_000_000_000,
                ;
                assert(i as int * shift as int <= 1_000_000 * 1_000_000_000) by (nonlinear_arith)
                    requires
                        0 <= i <= 1_000_000,
                        0 <= shift <= 1_000_000_000,
                ;
            }
            let x: i64 = ((k as u64) * shift) as i64;
            let y: i64 = -(((i as u64) * shift) as i64);
            bodies.push(
                LatticeBody {
                    x,
                    y,
                    kind: if fixed {
                        BodyKind::Fixed
                    } else {
                        BodyKind::Dynamic
                    },
                    half_extent,
                },
            );
            let mark: bool = i == rows / 2 || k % 4 == 0 || k == columns - 1;
            let ghost joints_before = joints@;
            if i > 0 {
                joints.push(
                    RevoluteJointSpec {
                        parent: idx - 1,
                        child: idx,
                        anchor1: Vec2Milli { x: 0, y: 0 },
                        anchor2: Vec2Milli { x: 0, y: shift as i64 },
                        marked_for_despawn: mark,
                    },
                );
            }
            if k > 0 {
                proof {
                    assert(idx >= rows) by (nonlinear_arith)
                        requires
                            idx == k * rows + i,
                            1 <= k,
                            0 <= i,
                            0 <= rows,
                    ;
                }
                joints.push(
                    RevoluteJointSpec {
                        parent: idx - rows,
                        child: idx,
                        anchor1: Vec2Milli { x: 0, y: 0 },
                        anchor2: Vec2Milli { x: -(shift as i64), y: 0 },
                        marked_for_despawn: mark,
                    },
                );
            }
            proof {
                assert(joints@ =~= joints_before + cell_joints(
                    rows as int,
                    columns as int,
                    shift as int,
                    k as int,
                    i as int,
                ));
                assert(joints@ =~= lattice_joints_prefix(
                    rows as int,
                    columns as int,
                    shift as int,
                    idx + 1,
                ));
            }
            i = i + 1;
        }
        proof {
            assert((k + 1) * rows == k * rows + rows) by (nonlinear_arith);
        }
        k = k + 1;
    }
    proof {
        assert(columns * rows == rows * columns) by (nonlinear_arith);
        lemma_lattice_joint_count(rows as int, columns as int, shift as int, (rows * columns) as int);
        assert(rows * columns >= rows) by (nonlinear_arith)
            requires
                1 <= columns,
                1 <= rows,
        ;
        lemma_div_multiples_vanish_fancy(columns as int, rows - 1, rows as int);
        assert(rows as int * columns as int + (rows - 1) == rows * columns + rows - 1);
    }
    LatticePlan { bodies, joints }
}

/// The lattice of the tearing scene, whose marked joints are despawned when
/// its timer runs out: the common forty-by-forty layout.
pub fn despawn_setup() -> (plan: LatticePlan)
    ensures
        plan.bodies@.len() == LATTICE_ROWS * LATTICE_COLUMNS,
        forall|idx: int|
            0 <= idx < plan.bodies@.len() ==> lattice_body_ok(
                #[trigger] plan.bodies@[idx],
                LATTICE_ROWS as int,
                LATTICE_COLUMNS as int,
                LATTICE_SHIFT as int,
                LATTICE_HALF_EXTENT as int,
                idx,
            ),
        plan.joints@ == lattice_joints_prefix(
            LATTICE_ROWS as int,
            LATTICE_COLUMNS as int,
            LATTICE_SHIFT as int,
            (LATTICE_ROWS * LATTICE_COLUMNS) as int,
        ),
        plan.joints@.len() == 2 * (LATTICE_ROWS * LATTICE_COLUMNS) - LATTICE_ROWS
            - LATTICE_COLUMNS,
{
    lattice_plan(LATTICE_ROWS, LATTICE_COLUMNS, LATTICE_SHIFT, LATTICE_HALF_EXTENT)
}

/// The lattice of the scene that keeps all its joints: the same layout as
/// the tearing scene, the despawn marks unused.
pub fn multi_joints() -> (plan: LatticePlan)
    ensures
        plan.bodies@.len() == LATTICE_ROWS * LATTICE_COLUMNS,
        forall|idx: int|
            0 <= idx < plan.bodies@.len() ==> lattice_body_ok(
                #[trigger] plan.bodies@[idx],
                LATTICE_ROWS as int,
                LATTICE_COLUMNS as int,
                LATTICE_SHIFT as int,
                LATTICE_HALF_EXTENT as int,
                idx,
            ),
        plan.joints@ == lattice_joints_prefix(
            LATTICE_ROWS as int,
            LATTICE_COLUMNS as int,
            LATTICE_SHIFT as int,
            (LATTICE_ROWS * LATTICE_COLUMNS) as int,
        ),
        plan.joints@.len() == 2 * (LATTICE_ROWS * LATTICE_COLUMNS) - LATTICE_ROWS
            - LATTICE_COLUMNS,
{
    lattice_plan(LATTICE_ROWS, LATTICE_COLUMNS, LATTICE_SHIFT, LATTICE_HALF_EXTENT)
}

/// The marked joint indices of `joints`, in order: the joints the tearing
/// scene despawns.
pub open spec fn marked_indices(joints: Seq<RevoluteJointSpec>, upto: int) -> Seq<usize>
    decreases upto,
{
    if upto <= 0 {
        Seq::empty()
    } else if joints[upto - 1].marked_for_despawn {
        marked_indices(joints, upto - 1).push((upto - 1) as usize)
    } else {
        marked_indices(joints, upto - 1)
    }
}

/// Collects the indices of the joints marked for despawning, in order: the
/// work list of the tearing scene once its timer runs out.
pub fn marked_joint_indices(plan: &LatticePlan) -> (r: Vec<usize>)
    ensures
        r@ == marked_indices(plan.joints@, plan.joints@.len() as int),
{
    let mut r: Vec<usize> = Vec::new();
    let mut j: usize = 0;
    while j < plan.joints.len()
        invariant
            j <= plan.joints@.len(),
            r@ == marked_indices(plan.joints@, j as int),
        decreases plan.joints@.len() - j,
    {
        if plan.joints[j].marked_for_despawn {
            r.push(j);
        }
        j = j + 1;
    }
    r
}

} // verus!
