//! Colliders: a shape plus an optional owning body, and the shape-pair
//! collision dispatcher.

use vstd::prelude::*;

use crate::algo::{
    box2d_box2d, box2d_box2d_manifold, box2d_circle, box2d_circle_manifold, box2d_circle_overlap,
    circle_circle, circle_circle_manifold, circles_overlap, CollisionManifold,
};
use crate::body::RigidBodyHandle;
use crate::geometry::{rect_center, Box2D, Circle};
use crate::vec2::{vneg, Vec2};

verus! {

/// The shape carried by a collider.
#[derive(Clone, Copy, Debug, PartialEq, Eq, Structural)]
pub enum ColliderShape {
    Circle(Circle),
    Box2D(Box2D),
}

/// Whether a shape pair geometrically overlaps (for oriented box pairs: no
/// candidate axis separates them).
pub open spec fn shapes_overlap(s1: ColliderShape, s2: ColliderShape) -> bool {
    match (s1, s2) {
        (ColliderShape::Circle(c1), ColliderShape::Circle(c2)) => circles_overlap(c1, c2),
        (ColliderShape::Circle(c), ColliderShape::Box2D(b)) => box2d_circle_overlap(b, c),
        (ColliderShape::Box2D(b), ColliderShape::Circle(c)) => box2d_circle_overlap(b, c),
        (ColliderShape::Box2D(b1), ColliderShape::Box2D(b2)) => box2d_box2d_manifold(b1, b2)
            is Some,
    }
}

/// The manifold of a shape pair. Circle-versus-box reuses the box-versus-
/// circle manifold with the normal negated, so the normal always points from
/// the first shape's side.
pub open spec fn shape_manifold(s1: ColliderShape, s2: ColliderShape) -> Option<
    CollisionManifold,
> {
    match (s1, s2) {
        (ColliderShape::Circle(c1), ColliderShape::Circle(c2)) => circle_circle_manifold(c1, c2),
        (ColliderShape::Circle(c), ColliderShape::Box2D(b)) => match box2d_circle_manifold(b, c) {
            None => None,
            Some(m) => Some(
                CollisionManifold {
                    normal: vneg(m.normal),
                    contact_point_a: m.contact_point_a,
                    contact_point_b: m.contact_point_b,
                    depth: m.depth,
                },
            ),
        },
        (ColliderShape::Box2D(b), ColliderShape::Circle(c)) => box2d_circle_manifold(b, c),
        (ColliderShape::Box2D(b1), ColliderShape::Box2D(b2)) => box2d_box2d_manifold(b1, b2),
    }
}

/// A shape's reference position: a circle's center, a box's center.
pub open spec fn shape_center(s: ColliderShape) -> Vec2 {
    match s {
        ColliderShape::Circle(c) => c.center,
        ColliderShape::Box2D(b) => rect_center(b.min, b.max),
    }
}

/// The shape moved so its reference position sits at `position`.
pub open spec fn shape_at_position(s: ColliderShape, position: Vec2) -> ColliderShape {
    match s {
        ColliderShape::Circle(c) => ColliderShape::Circle(
            Circle { center: position, radius: c.radius },
        ),
        ColliderShape::Box2D(b) => ColliderShape::Box2D(
            Box2D {
                min: crate::vec2::vsub(position, crate::geometry::rect_half_size(b.min, b.max)),
                max: crate::vec2::vadd(position, crate::geometry::rect_half_size(b.min, b.max)),
                rotation: b.rotation,
            },
        ),
    }
}

impl ColliderShape {
    /// The manifold of this shape against another, if they collide; exactly
    /// what [`shape_manifold`] states, and present if and only if the shapes
    /// overlap.
    pub fn test_collision(self, other: Self) -> (r: Option<CollisionManifold>)
        ensures
            r == shape_manifold(self, other),
            r is Some <==> shapes_overlap(self, other),
    {
        match (self, other) {
            (ColliderShape::Circle(c1), ColliderShape::Circle(c2)) => circle_circle(c1, c2),
            (ColliderShape::Circle(circle), ColliderShape::Box2D(box2d)) => {
                match box2d_circle(box2d, circle) {
                    None => None,
                    Some(m) => Some(
                        CollisionManifold {
                            normal: m.normal.neg(),
                            contact_point_a: m.contact_point_a,
                            contact_point_b: m.contact_point_b,
                            depth: m.depth,
                        },
                    ),
                }
            },
            (ColliderShape::Box2D(box2d), ColliderShape::Circle(circle)) => {
                box2d_circle(box2d, circle)
            },
            (ColliderShape::Box2D(b1), ColliderShape::Box2D(b2)) => box2d_box2d(b1, b2),
        }
    }

    /// Move the shape so its reference position sits at `position`.
    pub fn update_position(&mut self, position: Vec2)
        ensures
            *final(self) == shape_at_position(*old(self), position),
    {
        match self {
            ColliderShape::Circle(circle) => {
                circle.center = position;
            },
            ColliderShape::Box2D(box2d) => {
                box2d.set_center(position);
            },
        }
    }

    /// Replace the rotation of an oriented box; circles are unchanged.
    pub fn update_rotation(&mut self, rotation: crate::vec2::Rot2)
        ensures
            *final(self) == (match *old(self) {
                ColliderShape::Circle(c) => ColliderShape::Circle(c),
                ColliderShape::Box2D(b) => ColliderShape::Box2D(
                    Box2D { min: b.min, max: b.max, rotation },
                ),
            }),
    {
        match self {
            ColliderShape::Circle(_) => (),
            ColliderShape::Box2D(box2d) => {
                box2d.rotation = rotation;
            },
        }
    }

    /// The shape's reference position.
    pub fn center(self) -> (r: Vec2)
        ensures
            r == shape_center(self),
    {
        match self {
            ColliderShape::Circle(c) => c.center,
            ColliderShape::Box2D(b) => b.center(),
        }
    }
}

/// A collider: one shape, optionally owned by a rigid body.
#[derive(Clone, Copy, Debug, PartialEq, Eq, Structural)]
pub struct Collider {
    pub shape: ColliderShape,
    pub parent: Option<RigidBodyHandle>,
}

impl Collider {
    /// A standalone collider with no owning body.
    pub fn new(shape: ColliderShape) -> (r: Collider)
        ensures
            r == (Collider { shape, parent: None::<RigidBodyHandle> }),
    {
        Collider { shape, parent: None }
    }

    /// The manifold of this collider's shape against another's.
    pub fn test_collision(&self, other: &Self) -> (r: Option<CollisionManifold>)
        ensures
            r == shape_manifold(self.shape, other.shape),
            r is Some <==> shapes_overlap(self.shape, other.shape),
    {
        self.shape.test_collision(other.shape)
    }

    /// Move the collider's shape to `position`.
    pub fn update_position(&mut self, position: Vec2)
        ensures
            *final(self) == (Collider {
                shape: shape_at_position(old(self).shape, position),
                parent: old(self).parent,
            }),
    {
        self.shape.update_position(position);
    }

    /// Replace the rotation of the collider's shape.
    pub fn update_rotation(&mut self, rotation: crate::vec2::Rot2)
        ensures
            final(self).parent == old(self).parent,
            *final(self) == (Collider {
                shape: (match old(self).shape {
                    ColliderShape::Circle(c) => ColliderShape::Circle(c),
                    ColliderShape::Box2D(b) => ColliderShape::Box2D(
                        Box2D { min: b.min, max: b.max, rotation },
                    ),
                }),
                parent: old(self).parent,
            }),
    {
        self.shape.update_rotation(rotation);
    }

    /// Attach the collider to a body.
    pub fn set_parent(&mut self, parent: RigidBodyHandle)
        ensures
            *final(self) == (Collider { shape: old(self).shape, parent: Some(parent) }),
    {
        self.parent = Some(parent);
    }
}

/// A recorded collision: the two body handles and the manifold between their
/// colliders.
#[derive(Clone, Copy, Debug, PartialEq, Eq, Structural)]
pub struct Collision {
    pub body_handle1: RigidBodyHandle,
    pub body_handle2: RigidBodyHandle,
    pub manifold: CollisionManifold,
}

/// A shape for the boolean narrow-phase tests: circle, axis-aligned box, or
/// oriented box.
#[derive(Clone, Copy, Debug, PartialEq, Eq, Structural)]
pub enum Collider2D {
    Circle(Circle),
    Aabb(crate::geometry::Aabb),
    Obb(Box2D),
}

/// Whether two boolean-test colliders overlap, per shape pair.
pub open spec fn collider2d_overlap(a: Collider2D, b: Collider2D) -> bool {
    match (a, b) {
        (Collider2D::Circle(c1), Collider2D::Circle(c2)) => circles_overlap(c1, c2),
        (Collider2D::Circle(c), Collider2D::Aabb(r)) => crate::algo::circle_aabb_overlap(c, r),
        (Collider2D::Aabb(r), Collider2D::Circle(c)) => crate::algo::circle_aabb_overlap(c, r),
        (Collider2D::Circle(c), Collider2D::Obb(o)) => crate::algo::circle_box2d_overlap(c, o),
        (Collider2D::Obb(o), Collider2D::Circle(c)) => crate::algo::circle_box2d_overlap(c, o),
        (Collider2D::Aabb(r1), Collider2D::Aabb(r2)) => crate::algo::aabb_aabb_sat_overlap(
            r1,
            r2,
        ),
        (Collider2D::Aabb(r), Collider2D::Obb(o)) => crate::algo::aabb_box2d_overlap(r, o),
        (Collider2D::Obb(o), Collider2D::Aabb(r)) => crate::algo::aabb_box2d_overlap(r, o),
        (Collider2D::Obb(o1), Collider2D::Obb(o2)) => crate::algo::box2d_box2d_sat_overlap(
            o1,
            o2,
        ),
    }
}

impl Collider2D {
    /// Whether this collider overlaps another, exactly as
    /// [`collider2d_overlap`] states.
    pub fn test_collision(&self, other: &Self) -> (r: bool)
        ensures
            r == collider2d_overlap(*self, *other),
    {
        match (*self, *other) {
            (Collider2D::Circle(c1), Collider2D::Circle(c2)) => crate::algo::circle_and_circle(
                c1,
                c2,
            ),
            (Collider2D::Circle(circle), Collider2D::Aabb(aabb)) => crate::algo::circle_and_aabb(
                circle,
                aabb,
            ),
            (Collider2D::Aabb(aabb), Collider2D::Circle(circle)) => crate::algo::circle_and_aabb(
                circle,
                aabb,
            ),
            (Collider2D::Circle(circle), Collider2D::Obb(obb)) => crate::algo::circle_and_obb(
                circle,
                obb,
            ),
            (Collider2D::Obb(obb), Collider2D::Circle(circle)) => crate::algo::circle_and_obb(
                circle,
                obb,
            ),
            (Collider2D::Aabb(aabb1), Collider2D::Aabb(aabb2)) => crate::algo::aabb_and_aabb(
                aabb1,
                aabb2,
            ),
            (Collider2D::Aabb(aabb), Collider2D::Obb(obb)) => crate::algo::aabb_and_obb(
                aabb,
                obb,
            ),
            (Collider2D::Obb(obb), Collider2D::Aabb(aabb)) => crate::algo::aabb_and_obb(
                aabb,
                obb,
            ),
            (Collider2D::Obb(obb1), Collider2D::Obb(obb2)) => crate::algo::obb_and_obb(
                obb1,
                obb2,
            ),
        }
    }
}

} // verus!
