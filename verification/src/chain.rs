//! The player's robot chain.
//!
//! The player is a chain of balls tied together with rope joints: a heavy
//! head, a first body ball at nine tenths of the head's radius, and then a
//! run of balls whose radii taper linearly to zero. Each ball stands to the
//! right of the one before it, separated by a fixed gap, and each rope is
//! just long enough to let the pair hang at that gap plus a little slack.
//! This module computes that layout as a plan of parts and joints.

use vstd::prelude::*;
use vstd::arithmetic::div_mod::lemma_div_is_ordered;
use vstd::arithmetic::div_mod::lemma_div_pos_is_pos;
use crate::color::ColorSpec;
use crate::fixed::lemma_scale_milli_bound;
use crate::fixed::scale_milli;
use crate::fixed::spec_scale_milli;
use crate::mechanical::MyPosition;
use crate::mechanical::Vec2Milli;
use crate::robot::Robot;
use crate::steering::INV_SQRT2;
use crate::steering::direction_from_keys;
use crate::steering::normalize_diagonal;
use crate::steering::spec_axis;
use crate::steering::spec_diagonal_xy;

verus! {

/// How many tapering balls follow the first two chain parts.
pub const CHAIN_BALL_COUNT: usize = 144;

/// The head ball's radius, in milli units.
pub const HEAD_RADIUS: u64 = 100_000;

/// The head ball's mass, in milli mass units.
pub const HEAD_MASS: u64 = 1500;

/// The gap kept between neighbouring balls, in milli units.
pub const CHAIN_GAP: u64 = 9_000;

/// The rope length of the first joint, in milli units.
pub const INITIAL_ROPE: u64 = 250_000;

/// The slack added to every later rope beyond the resting distance of its
/// two balls, in milli units.
pub const ROPE_SLACK: u64 = 3_000;

/// Which role a chain part plays.
#[derive(Clone, Copy, Debug, PartialEq, Eq, Structural)]
pub enum PartTag {
    Head,
    Body,
}

/// One ball of the chain: its role, resting position on the x axis, radius,
/// mass and colour.
#[derive(Clone, Copy, Debug, PartialEq, Eq, Structural)]
pub struct ChainPart {
    pub tag: PartTag,
    /// The resting x coordinate, in milli units; every part rests on `y == 0`.
    pub x: i64,
    pub radius: u64,
    pub mass: u64,
    pub color: ColorSpec,
}

/// One rope joint: the indices of the two parts it ties and its length, with
/// its local anchors at the parts' centres.
#[derive(Clone, Copy, Debug, PartialEq, Eq, Structural)]
pub struct RopeJointSpec {
    pub parent: usize,
    pub child: usize,
    pub rope_length: u64,
    pub anchor1: Vec2Milli,
    pub anchor2: Vec2Milli,
}

/// The whole chain: its parts in order and the ropes tying each part to the
/// next.
#[derive(Clone, Debug, PartialEq, Eq)]
pub struct ChainPlan {
    pub parts: Vec<ChainPart>,
    pub joints: Vec<RopeJointSpec>,
}

/// The player entity: its marker component, its position, and the chain
/// spawned as its children.
#[derive(Clone, Debug, PartialEq, Eq)]
pub struct PlayerPlan {
    pub robot: Robot,
    pub position: MyPosition,
    pub chain: ChainPlan,
}

/// The radius of chain part `idx`, in milli units: the head's full radius,
/// then nine tenths of it, then a linear taper that reaches zero one step
/// past the last part.
pub open spec fn chain_radius(idx: int) -> int {
    if idx == 0 {
        HEAD_RADIUS as int
    } else if idx == 1 {
        HEAD_RADIUS as int * 9 / 10
    } else {
        HEAD_RADIUS as int * (CHAIN_BALL_COUNT as int - idx + 2) / (CHAIN_BALL_COUNT as int)
    }
}

/// The resting x coordinate of chain part `idx`, in milli units: the head
/// rests at the origin, and each later part rests one gap beyond the point
/// where its ball touches the previous one.
pub open spec fn chain_x(idx: int) -> int
    decreases idx,
{
    if idx <= 0 {
        0
    } else {
        chain_x(idx - 1) + chain_radius(idx) + chain_radius(idx - 1) + CHAIN_GAP as int
    }
}

/// The mass of chain part `idx`, in milli mass units: the head's full mass,
/// a tenth of it for every other part.
pub open spec fn chain_mass(idx: int) -> int {
    if idx == 0 {
        HEAD_MASS as int
    } else {
        HEAD_MASS as int / 10
    }
}

/// The colour of chain part `idx`: the head glows red and blue, and the body
/// parts run down a blue ramp that fades with the taper.
pub open spec fn chain_color(idx: int) -> ColorSpec {
    if idx == 0 {
        ColorSpec::LinearRgb { red: 3_000, green: 0, blue: 16_000 }
    } else if idx == 1 {
        ColorSpec::LinearRgb { red: 0, green: 0, blue: 10_000 }
    } else {
        ColorSpec::LinearRgb {
            red: 0,
            green: 0,
            blue: (((CHAIN_BALL_COUNT + 1) as int - idx) * 10_000) as i64,
        }
    }
}

/// The rope length of joint `n` (tying part `n` to part `n + 1`), in milli
/// units: the first rope keeps the initial length, and every later rope
/// spans its two balls' radii plus the gap plus the slack.
pub open spec fn chain_rope_length(n: int) -> int {
    if n == 0 {
        INITIAL_ROPE as int
    } else {
        chain_radius(n) + chain_radius(n + 1) + CHAIN_GAP as int + ROPE_SLACK as int
    }
}

/// Part `idx` of the chain has the radius, position, mass, colour and role
/// the taper gives it.
pub open spec fn chain_part_ok(p: ChainPart, idx: int) -> bool {
    &&& p.tag == (if idx == 0 { PartTag::Head } else { PartTag::Body })
    &&& p.x == chain_x(idx)
    &&& p.radius == chain_radius(idx)
    &&& p.mass == chain_mass(idx)
    &&& p.color == chain_color(idx)
}

/// Joint `n` of the chain ties part `n` to part `n + 1` at their centres,
/// with the rope length the taper gives it.
pub open spec fn chain_joint_ok(j: RopeJointSpec, n: int) -> bool {
    &&& j.parent == n
    &&& j.child == n + 1
    &&& j.rope_length == chain_rope_length(n)
    &&& j.anchor1 == (Vec2Milli { x: 0i64, y: 0i64 })
    &&& j.anchor2 == (Vec2Milli { x: 0i64, y: 0i64 })
}

/// Every chain radius lies between zero and the head's radius.
pub proof fn lemma_chain_radius_bound(idx: int)
    requires
        0 <= idx <= CHAIN_BALL_COUNT + 2,
    ensures
        0 <= chain_radius(idx) <= HEAD_RADIUS,
{
    if idx >= 2 {
        let k = CHAIN_BALL_COUNT as int - idx + 2;
        let n = HEAD_RADIUS as int * k;
        assert(0 <= n <= 14_400_000);
        lemma_div_pos_is_pos(n, 144);
        lemma_div_is_ordered(n, 14_400_000, 144);
    }
}

/// Chain positions start at the origin and step by at most two head radii
/// plus the gap, so part `idx` rests within `idx` such steps.
pub proof fn lemma_chain_x_bound(idx: int)
    requires
        0 <= idx <= CHAIN_BALL_COUNT + 2,
    ensures
        0 <= chain_x(idx) <= idx * (2 * HEAD_RADIUS + CHAIN_GAP),
    decreases idx,
{
    if idx > 0 {
        lemma_chain_x_bound(idx - 1);
        lemma_chain_radius_bound(idx);
        lemma_chain_radius_bound(idx - 1);
        assert((idx - 1) * (2 * HEAD_RADIUS + CHAIN_GAP) + (2 * HEAD_RADIUS + CHAIN_GAP)
            == idx * (2 * HEAD_RADIUS + CHAIN_GAP)) by (nonlinear_arith);
    }
}

/// Lays out the player's chain: `CHAIN_BALL_COUNT + 2` parts resting along
/// the x axis with the tapering radii, masses and colours of the chain, and
/// one rope joint between each pair of neighbours. Neighbouring balls never
/// overlap: the left edge of each rests exactly one gap to the right of the
/// right edge of the ball before it.
pub fn chain_plan() -> (plan: ChainPlan)
    ensures
        plan.parts@.len() == CHAIN_BALL_COUNT + 2,
        forall|i: int| 0 <= i < plan.parts@.len() ==> chain_part_ok(#[trigger] plan.parts@[i], i),
        forall|i: int|
            1 <= i < plan.parts@.len() ==> (#[trigger] plan.parts@[i]).x - plan.parts@[i].radius
                == plan.parts@[i - 1].x + plan.parts@[i - 1].radius + CHAIN_GAP,
        forall|i: int|
            1 <= i < plan.parts@.len() ==> (#[trigger] plan.parts@[i]).x > plan.parts@[i - 1].x,
        plan.joints@.len() == CHAIN_BALL_COUNT + 1,
        forall|n: int| 0 <= n < plan.joints@.len() ==> chain_joint_ok(
            #[trigger] plan.joints@[n],
            n,
        ),
{
    let mut parts: Vec<ChainPart> = Vec::new();
    parts.push(ChainPart {
        tag: PartTag::Head,
        x: 0,
        radius: HEAD_RADIUS,
        mass: HEAD_MASS,
        color: ColorSpec::LinearRgb { red: 3_000, green: 0, blue: 16_000 },
    });
    let first_radius: u64 = HEAD_RADIUS * 9 / 10;
    parts.push(ChainPart {
        tag: PartTag::Body,
        x: (HEAD_RADIUS + first_radius + CHAIN_GAP) as i64,
        radius: first_radius,
        mass: HEAD_MASS / 10,
        color: ColorSpec::LinearRgb { red: 0, green: 0, blue: 10_000 },
    });
    proof {
        assert(chain_x(0) == 0);
        assert(chain_radius(0) == HEAD_RADIUS);
        assert(chain_radius(1) == 90_000);
        assert(chain_x(1) == 199_000);
    }
    let mut idx: usize = 2;
    while idx < CHAIN_BALL_COUNT + 2
        invariant
            2 <= idx <= CHAIN_BALL_COUNT + 2,
            parts@.len() == idx,
            forall|i: int| 0 <= i < idx ==> chain_part_ok(#[trigger] parts@[i], i),
        decreases CHAIN_BALL_COUNT + 2 - idx,
    {
        let prev: ChainPart = parts[idx - 1];
        let radius: u64 = HEAD_RADIUS * ((CHAIN_BALL_COUNT + 2 - idx) as u64) / (
        CHAIN_BALL_COUNT as u64);
        proof {
            lemma_chain_radius_bound(idx as int);
            lemma_chain_radius_bound(idx - 1);
            lemma_chain_x_bound(idx - 1);
            assert((idx - 1) * 209_000 <= 145 * 209_000) by (nonlinear_arith)
                requires
                    idx <= 145,
            ;
        }
        let x: i64 = prev.x + radius as i64 + prev.radius as i64 + CHAIN_GAP as i64;
        parts.push(ChainPart {
            tag: PartTag::Body,
            x,
            radius,
            mass: HEAD_MASS / 10,
            color: ColorSpec::LinearRgb {
                red: 0,
                green: 0,
                blue: ((CHAIN_BALL_COUNT + 1 - idx) as i64) * 10_000,
            },
        });
        idx = idx + 1;
    }
    let mut joints: Vec<RopeJointSpec> = Vec::new();
    joints.push(RopeJointSpec {
        parent: 0,
        child: 1,
        rope_length: INITIAL_ROPE,
        anchor1: Vec2Milli { x: 0, y: 0 },
        anchor2: Vec2Milli { x: 0, y: 0 },
    });
    let mut n: usize = 1;
    while n < CHAIN_BALL_COUNT + 1
        invariant
            1 <= n <= CHAIN_BALL_COUNT + 1,
            parts@.len() == CHAIN_BALL_COUNT + 2,
            forall|i: int| 0 <= i < parts@.len() ==> chain_part_ok(#[trigger] parts@[i], i),
            joints@.len() == n,
            forall|m: int| 0 <= m < n ==> chain_joint_ok(#[trigger] joints@[m], m),
        decreases CHAIN_BALL_COUNT + 1 - n,
    {
        let ra: u64 = parts[n].radius;
        let rb: u64 = parts[n + 1].radius;
        proof {
            lemma_chain_radius_bound(n as int);
            lemma_chain_radius_bound(n + 1);
        }
        joints.push(RopeJointSpec {
            parent: n,
            child: n + 1,
            rope_length: ra + rb + CHAIN_GAP + ROPE_SLACK,
            anchor1: Vec2Milli { x: 0, y: 0 },
            anchor2: Vec2Milli { x: 0, y: 0 },
        });
        n = n + 1;
    }
    ChainPlan { parts, joints }
}

/// The force the movement keys drive the chain's head with, in milli
/// newtons: the player's weight class times nine.
pub const PLAYER_ACCELERATION_FORCE: u64 = 450_000;

/// The extra gain applied to each frame's impulse.
pub const IMPULSE_GAIN: u64 = 200;

/// The impulse added to the head for a steering direction `d` (milli) over a
/// frame of `delta_ms` milliseconds: the direction times the driving force
/// times the gain, integrated over the frame. In milli impulse units that is
/// `d * 90 * delta_ms / 1000`, rounded toward zero.
pub open spec fn spec_impulse_delta(d: int, delta_ms: int) -> int {
    spec_scale_milli(
        d * ((PLAYER_ACCELERATION_FORCE / 1000) as int * IMPULSE_GAIN as int / 1000),
        delta_ms,
    )
}

/// One frame of the chain player's steering. The movement keys choose a
/// direction, a diagonal is cut back toward unit length; the oscillation key
/// flips the swim toggle, and while the toggle is on, twice the host's
/// oscillation sample (a milli sine of six times the elapsed seconds) is
/// added to the vertical axis. The head's impulse grows by the direction
/// times the driving force and gain over the frame. Returns the new impulse
/// and the new state of the swim toggle.
pub fn move_player(
    up: bool,
    down: bool,
    left: bool,
    right: bool,
    oscillation_key: bool,
    oscillating: bool,
    oscillation_sample: i64,
    delta_ms: u64,
    impulse: Vec2Milli,
) -> (r: (Vec2Milli, bool))
    requires
        -1000 <= oscillation_sample <= 1000,
        delta_ms <= 3_600_000,
        -1_000_000_000_000_000 <= impulse.x <= 1_000_000_000_000_000,
        -1_000_000_000_000_000 <= impulse.y <= 1_000_000_000_000_000,
    ensures
        r.1 == (if oscillation_key {
            !oscillating
        } else {
            oscillating
        }),
        ({
            let dx: int = 1000 * spec_axis(left, right);
            let dy: int = 1000 * spec_axis(down, up);
            let nx = if spec_diagonal_xy(dx, dy) {
                spec_scale_milli(dx, INV_SQRT2 as int)
            } else {
                dx
            };
            let ny = if spec_diagonal_xy(dx, dy) {
                spec_scale_milli(dy, INV_SQRT2 as int)
            } else {
                dy
            };
            let oy = if (if oscillation_key {
                !oscillating
            } else {
                oscillating
            }) {
                ny + 2 * oscillation_sample
            } else {
                ny
            };
            r.0.x == impulse.x + spec_impulse_delta(nx, delta_ms as int) && r.0.y == impulse.y
                + spec_impulse_delta(oy, delta_ms as int)
        }),
{
    let keyed: Vec2Milli = direction_from_keys(up, down, left, right);
    let dir: Vec2Milli = normalize_diagonal(keyed);
    let swim: bool = if oscillation_key {
        !oscillating
    } else {
        oscillating
    };
    let dir_y: i64 = if swim {
        dir.y + 2 * oscillation_sample
    } else {
        dir.y
    };
    let gain: i64 = ((PLAYER_ACCELERATION_FORCE / 1000) * IMPULSE_GAIN / 1000) as i64;
    proof {
        assert(-300_000 <= dir.x as int * gain as int <= 300_000) by (nonlinear_arith)
            requires
                -1000 <= dir.x <= 1000,
                gain == 90,
        ;
        assert(-300_000 <= dir_y as int * gain as int <= 300_000) by (nonlinear_arith)
            requires
                -3000 <= dir_y <= 3000,
                gain == 90,
        ;
        assert(-2_000_000_000_000 <= dir.x as int * gain as int * delta_ms as int
            <= 2_000_000_000_000) by (nonlinear_arith)
            requires
                -300_000 <= dir.x as int * gain as int <= 300_000,
                0 <= delta_ms <= 3_600_000,
        ;
        assert(-2_000_000_000_000 <= dir_y as int * gain as int * delta_ms as int
            <= 2_000_000_000_000) by (nonlinear_arith)
            requires
                -300_000 <= dir_y as int * gain as int <= 300_000,
                0 <= delta_ms <= 3_600_000,
        ;
    }
    let push_x: i64 = scale_milli(dir.x * gain, delta_ms);
    let push_y: i64 = scale_milli(dir_y * gain, delta_ms);
    proof {
        lemma_scale_milli_bound(dir.x as int * gain as int, delta_ms as int);
        lemma_scale_milli_bound(dir_y as int * gain as int, delta_ms as int);
    }
    (Vec2Milli { x: impulse.x + push_x, y: impulse.y + push_y }, swim)
}

/// The player: a [`Robot`] marker carrying the initial rope length, standing
/// at the origin, with the whole chain as its children.
pub fn spawn_player() -> (plan: PlayerPlan)
    ensures
        plan.robot == (Robot { rope_length: INITIAL_ROPE }),
        plan.position == (MyPosition { x: 0i64, y: 0i64 }),
        plan.chain.parts@.len() == CHAIN_BALL_COUNT + 2,
        forall|i: int| 0 <= i < plan.chain.parts@.len() ==> chain_part_ok(
            #[trigger] plan.chain.parts@[i],
            i,
        ),
        plan.chain.joints@.len() == CHAIN_BALL_COUNT + 1,
        forall|n: int| 0 <= n < plan.chain.joints@.len() ==> chain_joint_ok(
            #[trigger] plan.chain.joints@[n],
            n,
        ),
{
    PlayerPlan {
        robot: Robot { rope_length: INITIAL_ROPE },
        position: MyPosition { x: 0, y: 0 },
        chain: chain_plan(),
    }
}

} // verus!
