//! The generic mechanical component bundle.
//!
//! Every moving or static piece of a scene is described by the same bundle
//! of plain component values: a rigid-body kind with its mass, a collider
//! and mesh cut from a [`Shape`], zeroed velocity and impulse, the shared
//! damping and gravity settings, a position and a material colour. The host
//! shell turns one bundle into one engine entity.

use vstd::prelude::*;
use crate::color::ColorSpec;

verus! {

/// A 2D vector in milli scene units.
#[derive(Clone, Copy, Debug, PartialEq, Eq, Structural)]
pub struct Vec2Milli {
    pub x: i64,
    pub y: i64,
}

/// A position in the 2D scene, in milli scene units.
#[derive(Clone, Copy, Debug, PartialEq, Eq, Structural)]
pub struct MyPosition {
    pub x: i64,
    pub y: i64,
}

/// A transform: the 2D position lifted onto the engine's 3D stage.
#[derive(Clone, Copy, Debug, PartialEq, Eq, Structural)]
pub struct Transform3 {
    pub x: i64,
    pub y: i64,
    pub z: i64,
}

impl MyPosition {
    /// The transform of an entity standing at this position, on the plane
    /// `z == 0`.
    pub fn to_transform(&self) -> (t: Transform3)
        ensures
            t == (Transform3 { x: self.x, y: self.y, z: 0i64 }),
    {
        Transform3 { x: self.x, y: self.y, z: 0 }
    }
}

/// The outline a piece is cut from, in milli scene units.
#[derive(Clone, Copy, Debug, PartialEq, Eq, Structural)]
pub enum Shape {
    Rect { width: u64, height: u64 },
    Ball { radius: u64 },
}

/// A render mesh primitive, in the full dimensions the engine's mesh
/// builders take.
#[derive(Clone, Copy, Debug, PartialEq, Eq, Structural)]
pub enum MeshPrimitive {
    Rectangle { width: u64, height: u64 },
    Circle { radius: u64 },
}

/// A collider, in the half extents the physics engine takes: a cuboid is
/// given by half its width and height, a ball by its radius.
#[derive(Clone, Copy, Debug, PartialEq, Eq, Structural)]
pub enum ColliderShape {
    Cuboid { half_width: u64, half_height: u64 },
    Ball { radius: u64 },
}

impl Shape {
    /// The mesh primitive of this shape: the same outline in the full
    /// dimensions the mesh builders take.
    pub open spec fn spec_mesh(self) -> MeshPrimitive {
        match self {
            Shape::Rect { width, height } => MeshPrimitive::Rectangle { width, height },
            Shape::Ball { radius } => MeshPrimitive::Circle { radius },
        }
    }

    /// The collider of this shape: a rectangle becomes a cuboid of half its
    /// width and height, a ball keeps its radius.
    pub open spec fn spec_collider(self) -> ColliderShape {
        match self {
            Shape::Rect { width, height } => ColliderShape::Cuboid {
                half_width: (width / 2) as u64,
                half_height: (height / 2) as u64,
            },
            Shape::Ball { radius } => ColliderShape::Ball { radius },
        }
    }

    /// Cuts the render mesh for this shape.
    pub fn generate_mesh(&self) -> (m: MeshPrimitive)
        ensures
            m == self.spec_mesh(),
    {
        match self {
            Shape::Rect { width, height } => MeshPrimitive::Rectangle {
                width: *width,
                height: *height,
            },
            Shape::Ball { radius } => MeshPrimitive::Circle { radius: *radius },
        }
    }

    /// Cuts the physics collider for this shape.
    pub fn generate_collider(&self) -> (c: ColliderShape)
        ensures
            c == self.spec_collider(),
    {
        match self {
            Shape::Rect { width, height } => ColliderShape::Cuboid {
                half_width: *width / 2,
                half_height: *height / 2,
            },
            Shape::Ball { radius } => ColliderShape::Ball { radius: *radius },
        }
    }
}

/// A rigid body as a scene asks for it: dynamic with a mass in milli mass
/// units, or fixed in place.
#[derive(Clone, Copy, Debug, PartialEq, Eq, Structural)]
pub enum MyRigidBody {
    Dynamic { mass: u64 },
    Fixed,
}

/// The rigid-body component the physics engine takes, with the mass split
/// off into the collider's mass property.
#[derive(Clone, Copy, Debug, PartialEq, Eq, Structural)]
pub enum BodyKind {
    Dynamic,
    Fixed,
}

/// Linear and angular damping, in milli.
#[derive(Clone, Copy, Debug, PartialEq, Eq, Structural)]
pub struct Damping {
    pub linear: u64,
    pub angular: u64,
}

/// An external impulse: a linear part and a torque part.
#[derive(Clone, Copy, Debug, PartialEq, Eq, Structural)]
pub struct Impulse {
    pub linear: Vec2Milli,
    pub torque: i64,
}

/// The linear damping every bundle starts with, in milli: 3.5.
pub const BUNDLE_LINEAR_DAMPING: u64 = 3500;

/// The angular damping every bundle starts with, in milli: 0.4.
pub const BUNDLE_ANGULAR_DAMPING: u64 = 400;

/// One scene piece, as the component values of one engine entity.
#[derive(Clone, Copy, Debug, PartialEq, Eq, Structural)]
pub struct GenericMechanicalComponentBundle {
    pub rigid_body: BodyKind,
    /// The collider's mass property, in milli mass units; zero on a fixed
    /// body.
    pub collider_mass: u64,
    pub velocity: Vec2Milli,
    pub ext_impulse: Impulse,
    pub damping: Damping,
    /// How strongly scene gravity pulls this piece, in milli; every bundle
    /// switches gravity off.
    pub gravity_scale: u64,
    pub position: Transform3,
    pub mesh: MeshPrimitive,
    pub collider: ColliderShape,
    pub material: ColorSpec,
}

/// The bundle [`GenericMechanicalComponentBundle::new`] assembles: the body
/// kind and mass from `rigid_body` (a fixed body carries mass zero), the
/// mesh and collider cut from `shape`, velocity and impulse zeroed, the
/// shared damping, gravity switched off, and the given position and colour.
pub open spec fn spec_bundle(
    rigid_body: MyRigidBody,
    shape: Shape,
    color: ColorSpec,
    position: Transform3,
) -> GenericMechanicalComponentBundle {
    GenericMechanicalComponentBundle {
        rigid_body: match rigid_body {
            MyRigidBody::Dynamic { .. } => BodyKind::Dynamic,
            MyRigidBody::Fixed => BodyKind::Fixed,
        },
        collider_mass: match rigid_body {
            MyRigidBody::Dynamic { mass } => mass,
            MyRigidBody::Fixed => 0u64,
        },
        velocity: Vec2Milli { x: 0i64, y: 0i64 },
        ext_impulse: Impulse { linear: Vec2Milli { x: 0i64, y: 0i64 }, torque: 0i64 },
        damping: Damping { linear: BUNDLE_LINEAR_DAMPING, angular: BUNDLE_ANGULAR_DAMPING },
        gravity_scale: 0u64,
        position,
        mesh: shape.spec_mesh(),
        collider: shape.spec_collider(),
        material: color,
    }
}

impl GenericMechanicalComponentBundle {
    /// Assembles the bundle for one piece: exactly [`spec_bundle`] of the
    /// arguments.
    pub fn new(
        rigid_body: MyRigidBody,
        shape: Shape,
        color: ColorSpec,
        position: Transform3,
    ) -> (b: Self)
        ensures
            b == spec_bundle(rigid_body, shape, color, position),
    {
        let (kind, mass): (BodyKind, u64) = match rigid_body {
            MyRigidBody::Dynamic { mass } => (BodyKind::Dynamic, mass),
            MyRigidBody::Fixed => (BodyKind::Fixed, 0),
        };
        GenericMechanicalComponentBundle {
            rigid_body: kind,
            collider_mass: mass,
            velocity: Vec2Milli { x: 0, y: 0 },
            ext_impulse: Impulse { linear: Vec2Milli { x: 0, y: 0 }, torque: 0 },
            damping: Damping {
                linear: BUNDLE_LINEAR_DAMPING,
                angular: BUNDLE_ANGULAR_DAMPING,
            },
            gravity_scale: 0,
            position,
            mesh: shape.generate_mesh(),
            collider: shape.generate_collider(),
            material: color,
        }
    }
}

} // verus!
