//! Keyboard steering shared by the player scenes.
//!
//! Every scene reads the same four movement keys into a direction on the
//! milli-scaled unit square, and cuts a diagonal back to (nearly) unit
//! length with the fixed-point approximation of one over the square root of
//! two.

use vstd::prelude::*;
use vstd::arithmetic::div_mod::lemma_div_is_ordered;
use crate::fixed::lemma_scale_milli_bound;
use crate::fixed::spec_scale_milli;
use crate::fixed::scale_milli;
use crate::mechanical::Vec2Milli;

verus! {

/// One over the square root of two, in milli.
pub const INV_SQRT2: u64 = 707;

/// The axis value of an opposing key pair: one when only the positive key is
/// down, minus one when only the negative key is down, zero otherwise.
pub open spec fn spec_axis(negative: bool, positive: bool) -> int {
    (if positive {
        1int
    } else {
        0int
    }) - (if negative {
        1int
    } else {
        0int
    })
}

/// The direction the movement keys ask for, each axis a full milli unit:
/// right and up count positive.
pub fn direction_from_keys(up: bool, down: bool, left: bool, right: bool) -> (d: Vec2Milli)
    ensures
        d.x == 1000 * spec_axis(left, right),
        d.y == 1000 * spec_axis(down, up),
{
    let x: i64 = (if right {
        1000i64
    } else {
        0i64
    }) - (if left {
        1000i64
    } else {
        0i64
    });
    let y: i64 = (if up {
        1000i64
    } else {
        0i64
    }) - (if down {
        1000i64
    } else {
        0i64
    });
    Vec2Milli { x, y }
}

/// Whether a direction with the given milli axes points diagonally: the sum
/// of its axis magnitudes passes one unit.
pub open spec fn spec_diagonal_xy(x: int, y: int) -> bool {
    (if x >= 0 {
        x
    } else {
        -x
    }) + (if y >= 0 {
        y
    } else {
        -y
    }) > 1000
}

/// Whether a keyed direction points diagonally.
pub open spec fn spec_diagonal(d: Vec2Milli) -> bool {
    spec_diagonal_xy(d.x as int, d.y as int)
}

/// A milli quantity scaled by a milli factor of at most one keeps its bound.
proof fn lemma_scale_keeps_bound(a: int, m: int, bound: int)
    requires
        0 <= m <= 1000,
        0 <= bound,
        -bound <= a <= bound,
    ensures
        -bound <= spec_scale_milli(a, m) <= bound,
{
    lemma_scale_milli_bound(a, m);
    if a >= 0 {
        assert(a * m <= bound * 1000) by (nonlinear_arith)
            requires
                0 <= a <= bound,
                0 <= m <= 1000,
        ;
        lemma_div_is_ordered(a * m, bound * 1000, 1000);
        assert(bound * 1000 / 1000 == bound) by (nonlinear_arith);
    } else {
        assert((-a) * m <= bound * 1000) by (nonlinear_arith)
            requires
                0 < -a <= bound,
                0 <= m <= 1000,
        ;
        lemma_div_is_ordered((-a) * m, bound * 1000, 1000);
        assert(bound * 1000 / 1000 == bound) by (nonlinear_arith);
        assert((-a) * m == -(a * m)) by (nonlinear_arith);
    }
}

/// The keyed direction cut back toward unit length: a diagonal is scaled by
/// [`INV_SQRT2`], anything shorter passes through unchanged. Axes within one
/// unit stay within one unit.
pub fn normalize_diagonal(d: Vec2Milli) -> (n: Vec2Milli)
    requires
        -1000 <= d.x <= 1000,
        -1000 <= d.y <= 1000,
    ensures
        spec_diagonal(d) ==> n.x == spec_scale_milli(d.x as int, INV_SQRT2 as int) && n.y
            == spec_scale_milli(d.y as int, INV_SQRT2 as int),
        !spec_diagonal(d) ==> n == d,
        -1000 <= n.x <= 1000,
        -1000 <= n.y <= 1000,
{
    let ax: i64 = if d.x >= 0 {
        d.x
    } else {
        -d.x
    };
    let ay: i64 = if d.y >= 0 {
        d.y
    } else {
        -d.y
    };
    if ax + ay > 1000 {
        proof {
            lemma_scale_keeps_bound(d.x as int, INV_SQRT2 as int, 1000);
            lemma_scale_keeps_bound(d.y as int, INV_SQRT2 as int, 1000);
        }
        Vec2Milli { x: scale_milli(d.x, INV_SQRT2), y: scale_milli(d.y, INV_SQRT2) }
    } else {
        d
    }
}

} // verus!
