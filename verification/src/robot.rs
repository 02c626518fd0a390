//! The two-piece robot.
//!
//! The smallest robot is a square head with a ball leg hanging off one
//! corner by a revolute joint. Its parts are ordinary mechanical bundles in
//! the robot's deep blue, and the whole assembly stands a hundred units up.

use vstd::prelude::*;
use crate::color::ColorSpec;
use crate::lattice::RevoluteJointSpec;
use crate::mechanical::GenericMechanicalComponentBundle;
use crate::mechanical::MyRigidBody;
use crate::mechanical::Shape;
use crate::mechanical::Transform3;
use crate::mechanical::Vec2Milli;
use crate::mechanical::spec_bundle;

verus! {

/// The mass of each robot part, in milli mass units.
pub const ROBOT_PART_MASS: u64 = 100;

/// The marker component of a whole robot, carrying the rope length its
/// chain was strung with, in milli units.
#[derive(Clone, Copy, Debug, PartialEq, Eq, Structural)]
pub struct Robot {
    pub rope_length: u64,
}

/// The robot parts' deep blue, by its 8-bit sRGB channels.
pub open spec fn robot_blue() -> ColorSpec {
    ColorSpec::SrgbU8 { red8: 23u8, green8: 37u8, blue8: 84u8 }
}

/// The head's bundle: [`spec_bundle`] of a light dynamic body, a fifty-unit
/// square, the robot's blue, at the robot's local origin.
pub open spec fn spec_robot_head() -> GenericMechanicalComponentBundle {
    spec_bundle(
        MyRigidBody::Dynamic { mass: ROBOT_PART_MASS },
        Shape::Rect { width: 50_000u64, height: 50_000u64 },
        robot_blue(),
        Transform3 { x: 0i64, y: 0i64, z: 0i64 },
    )
}

/// The leg's bundle: [`spec_bundle`] of a light dynamic body, a thirty-unit
/// ball, the robot's blue, at the robot's local origin.
pub open spec fn spec_robot_leg() -> GenericMechanicalComponentBundle {
    spec_bundle(
        MyRigidBody::Dynamic { mass: ROBOT_PART_MASS },
        Shape::Ball { radius: 30_000u64 },
        robot_blue(),
        Transform3 { x: 0i64, y: 0i64, z: 0i64 },
    )
}

/// Builds the robot's head.
pub fn spawn_robot_head() -> (b: GenericMechanicalComponentBundle)
    ensures
        b == spec_robot_head(),
{
    GenericMechanicalComponentBundle::new(
        MyRigidBody::Dynamic { mass: ROBOT_PART_MASS },
        Shape::Rect { width: 50_000, height: 50_000 },
        ColorSpec::SrgbU8 { red8: 23, green8: 37, blue8: 84 },
        Transform3 { x: 0, y: 0, z: 0 },
    )
}

/// Builds the robot's leg.
pub fn spawn_robot_leg() -> (b: GenericMechanicalComponentBundle)
    ensures
        b == spec_robot_leg(),
{
    GenericMechanicalComponentBundle::new(
        MyRigidBody::Dynamic { mass: ROBOT_PART_MASS },
        Shape::Ball { radius: 30_000 },
        ColorSpec::SrgbU8 { red8: 23, green8: 37, blue8: 84 },
        Transform3 { x: 0, y: 0, z: 0 },
    )
}

/// The assembled robot: its root position, its two parts, and the joint
/// hanging the leg off the head.
#[derive(Clone, Copy, Debug, PartialEq, Eq, Structural)]
pub struct RobotPlan {
    /// Where the robot's root entity stands.
    pub position: Transform3,
    /// The head, the root's child, indexed 0 for the joint.
    pub head: GenericMechanicalComponentBundle,
    /// The leg, indexed 1 for the joint.
    pub leg: GenericMechanicalComponentBundle,
    /// The revolute joint tying the leg to the head's upper right corner.
    pub joint: RevoluteJointSpec,
}

/// Assembles the robot: the root a hundred units up, the head and leg built
/// by their own builders, and the leg pinned to the point a hundred units
/// right and up of the head's centre, thirty units above the leg's centre.
pub fn spawn_robot() -> (r: RobotPlan)
    ensures
        r.position == (Transform3 { x: 0i64, y: 100_000i64, z: 0i64 }),
        r.head == spec_robot_head(),
        r.leg == spec_robot_leg(),
        r.joint == (RevoluteJointSpec {
            parent: 0usize,
            child: 1usize,
            anchor1: Vec2Milli { x: 100_000i64, y: 100_000i64 },
            anchor2: Vec2Milli { x: 0i64, y: 30_000i64 },
            marked_for_despawn: false,
        }),
{
    let head = spawn_robot_head();
    let leg = spawn_robot_leg();
    RobotPlan {
        position: Transform3 { x: 0, y: 100_000, z: 0 },
        head,
        leg,
        joint: RevoluteJointSpec {
            parent: 0,
            child: 1,
            anchor1: Vec2Milli { x: 100_000, y: 100_000 },
            anchor2: Vec2Milli { x: 0, y: 30_000 },
            marked_for_despawn: false,
        },
    }
}

} // verus!
