//! Fixed-point arithmetic in thousandths ("milli" scale).
//!
//! Every length, coordinate, mass, colour channel and time factor in this
//! crate is an integer number of thousandths of its unit: the value `1000`
//! stands for one scene unit, one second, or a colour channel of one.

use vstd::prelude::*;
use vstd::arithmetic::div_mod::lemma_div_nonincreasing;
use vstd::arithmetic::div_mod::lemma_div_pos_is_pos;

verus! {

/// Division by a positive divisor that rounds toward zero, as the machine's
/// integer division does on a possibly negative numerator.
pub open spec fn div_toward_zero(n: int, d: int) -> int {
    if n >= 0 {
        n / d
    } else {
        -((-n) / d)
    }
}

/// The product of a milli-scaled quantity with a milli-scaled factor,
/// rescaled back to milli and rounded toward zero.
pub open spec fn spec_scale_milli(a: int, m: int) -> int {
    div_toward_zero(a * m, 1000)
}

/// Rounding toward zero never grows the magnitude: the scaled value lies
/// between zero and the full product.
pub proof fn lemma_scale_milli_bound(a: int, m: int)
    requires
        m >= 0,
    ensures
        a * m >= 0 ==> 0 <= spec_scale_milli(a, m) <= a * m,
        a * m < 0 ==> a * m <= spec_scale_milli(a, m) <= 0,
{
    let p = a * m;
    if p >= 0 {
        lemma_div_pos_is_pos(p, 1000);
        lemma_div_nonincreasing(p, 1000);
    } else {
        lemma_div_pos_is_pos(-p, 1000);
        lemma_div_nonincreasing(-p, 1000);
    }
}

/// `a * m / 1000`, rounded toward zero: scales the milli quantity `a` by the
/// milli factor `m`.
pub fn scale_milli(a: i64, m: u64) -> (r: i64)
    requires
        -0x7fff_ffff_ffff_fc00 <= a as int * m as int <= 0x7fff_ffff_ffff_fc00,
    ensures
        r == spec_scale_milli(a as int, m as int),
{
    proof {
        lemma_scale_milli_bound(a as int, m as int);
    }
    if a >= 0 {
        let p: u128 = (a as u128) * (m as u128);
        let q: u128 = p / 1000;
        q as i64
    } else {
        let ua: u128 = (-(a as i128)) as u128;
        proof {
            assert(ua as int * m as int <= 0x8000_0000_0000_0000int * 0xffff_ffff_ffff_ffffint)
                by (nonlinear_arith)
                requires
                    0 <= ua <= 0x8000_0000_0000_0000,
                    0 <= m <= 0xffff_ffff_ffff_ffff,
            ;
        }
        let p: u128 = ua * (m as u128);
        assert(p == -(a as int * m as int)) by (nonlinear_arith)
            requires
                a < 0,
                p == (-(a as int)) * (m as int),
        ;
        let q: u128 = p / 1000;
        -(q as i64)
    }
}

/// Linear interpolation from `from` toward `to` by the milli factor `t`:
/// the moved point `from + (to - from) * t / 1000`, rounded toward zero.
/// `t == 0` stays at `from`; `t == 1000` lands on `to`; a factor beyond
/// `1000` overshoots, as the host engine's unclamped interpolation does.
pub open spec fn spec_lerp_milli(from: int, to: int, t: int) -> int {
    from + spec_scale_milli(to - from, t)
}

/// One coordinate of a linear interpolation step, in milli scale.
pub fn lerp_milli(from: i64, to: i64, t: u64) -> (r: i64)
    requires
        -1_000_000_000_000 <= from <= 1_000_000_000_000,
        -1_000_000_000_000 <= to <= 1_000_000_000_000,
        t <= 1_000_000,
    ensures
        r == spec_lerp_milli(from as int, to as int, t as int),
{
    let delta: i64 = to - from;
    proof {
        assert(-2_000_000_000_000_000_000 <= delta as int * t as int <= 2_000_000_000_000_000_000)
            by (nonlinear_arith)
            requires
                -2_000_000_000_000 <= delta <= 2_000_000_000_000,
                0 <= t <= 1_000_000,
        ;
        lemma_scale_milli_bound(delta as int, t as int);
    }
    let moved: i64 = scale_milli(delta, t);
    from + moved
}

} // verus!
