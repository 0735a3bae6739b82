//! Shape primitives: circles, axis-aligned boxes, oriented boxes, lines and
//! rays, together with their derived measurements (size, center, vertices).

use vstd::prelude::*;

use crate::fx::{divt, tdiv, SCALE};
use crate::vec2::{rot_around, vadd, vnorm, vsub, Rot2, Vec2};

verus! {

/// A circle: center and radius.
#[derive(Clone, Copy, Debug, PartialEq, Eq, Structural)]
pub struct Circle {
    pub center: Vec2,
    pub radius: i64,
}

impl Circle {
    /// Build a circle.
    pub fn new(center: Vec2, radius: i64) -> (r: Circle)
        ensures
            r == (Circle { center, radius }),
    {
        Circle { center, radius }
    }

    /// Move the circle so its center sits at `position`.
    pub fn update_position(&mut self, position: Vec2)
        ensures
            *final(self) == (Circle { center: position, radius: old(self).radius }),
    {
        self.center = position;
    }
}

/// Half of each component, truncating toward zero.
pub open spec fn vhalf(v: Vec2) -> Vec2 {
    Vec2 { x: tdiv(v.x as int, 2) as i64, y: tdiv(v.y as int, 2) as i64 }
}

/// The edge lengths of the rectangle spanned by `min` and `max`.
pub open spec fn rect_size(min: Vec2, max: Vec2) -> Vec2 {
    vsub(max, min)
}

/// Half the edge lengths of the rectangle spanned by `min` and `max`.
pub open spec fn rect_half_size(min: Vec2, max: Vec2) -> Vec2 {
    vhalf(rect_size(min, max))
}

/// The center of the rectangle spanned by `min` and `max`.
pub open spec fn rect_center(min: Vec2, max: Vec2) -> Vec2 {
    vadd(min, rect_half_size(min, max))
}

/// The four corners of the rectangle spanned by `min` and `max`, in the
/// fixed order (min,min), (min,max), (max,min), (max,max).
pub open spec fn rect_corners(min: Vec2, max: Vec2) -> Seq<Vec2> {
    seq![
        Vec2 { x: min.x, y: min.y },
        Vec2 { x: min.x, y: max.y },
        Vec2 { x: max.x, y: min.y },
        Vec2 { x: max.x, y: max.y },
    ]
}

/// Half of each component, truncating toward zero.
pub fn vhalf_exec(v: Vec2) -> (r: Vec2)
    ensures
        r == vhalf(v),
{
    let hx: i128 = divt(v.x as i128, 2);
    let hy: i128 = divt(v.y as i128, 2);
    proof {
        crate::fx::lemma_tdiv_bound(v.x as int, 2);
        crate::fx::lemma_tdiv_bound(v.y as int, 2);
    }
    Vec2 { x: hx as i64, y: hy as i64 }
}

/// An axis-aligned box, spanned by its two extreme corners.
#[derive(Clone, Copy, Debug, PartialEq, Eq, Structural)]
pub struct Aabb {
    pub min: Vec2,
    pub max: Vec2,
}

impl Aabb {
    /// Build an axis-aligned box from its extreme corners.
    pub fn new(min: Vec2, max: Vec2) -> (r: Aabb)
        ensures
            r == (Aabb { min, max }),
    {
        Aabb { min, max }
    }

    /// Build an axis-aligned box around a center.
    pub fn from_center_and_half_size(center: Vec2, half_size: Vec2) -> (r: Aabb)
        ensures
            r == (Aabb { min: vsub(center, half_size), max: vadd(center, half_size) }),
    {
        Aabb { min: center.sub(half_size), max: center.add(half_size) }
    }

    /// The edge lengths.
    pub fn size(self) -> (r: Vec2)
        ensures
            r == rect_size(self.min, self.max),
    {
        self.max.sub(self.min)
    }

    /// Half the edge lengths.
    pub fn half_size(self) -> (r: Vec2)
        ensures
            r == rect_half_size(self.min, self.max),
    {
        vhalf_exec(self.size())
    }

    /// The center point.
    pub fn center(self) -> (r: Vec2)
        ensures
            r == rect_center(self.min, self.max),
    {
        self.min.add(self.half_size())
    }

    /// Move the box so its center sits at `center`, keeping its size.
    pub fn set_center(&mut self, center: Vec2)
        ensures
            *final(self) == (Aabb {
                min: vsub(center, rect_half_size(old(self).min, old(self).max)),
                max: vadd(center, rect_half_size(old(self).min, old(self).max)),
            }),
    {
        let half = self.half_size();
        self.min = center.sub(half);
        self.max = center.add(half);
    }
}

/// An oriented box: an axis-aligned span plus a rotation about its center.
#[derive(Clone, Copy, Debug, PartialEq, Eq, Structural)]
pub struct Box2D {
    pub min: Vec2,
    pub max: Vec2,
    pub rotation: Rot2,
}

impl Box2D {
    /// Build an oriented box.
    pub fn new(min: Vec2, max: Vec2, rotation: Rot2) -> (r: Box2D)
        ensures
            r == (Box2D { min, max, rotation }),
    {
        Box2D { min, max, rotation }
    }

    /// The unrotated span of this box.
    pub fn to_aabb(self) -> (r: Aabb)
        ensures
            r == (Aabb { min: self.min, max: self.max }),
    {
        Aabb { min: self.min, max: self.max }
    }

    /// An oriented box over the same span, with the identity rotation.
    pub fn from_aabb(aabb: Aabb) -> (r: Box2D)
        ensures
            r == (Box2D { min: aabb.min, max: aabb.max, rotation: Rot2 { c: SCALE, s: 0i64 } }),
    {
        Box2D { min: aabb.min, max: aabb.max, rotation: Rot2 { c: SCALE, s: 0 } }
    }

    /// The edge lengths (of the unrotated span).
    pub fn size(self) -> (r: Vec2)
        ensures
            r == rect_size(self.min, self.max),
    {
        self.max.sub(self.min)
    }

    /// Half the edge lengths.
    pub fn half_size(self) -> (r: Vec2)
        ensures
            r == rect_half_size(self.min, self.max),
    {
        vhalf_exec(self.size())
    }

    /// The center point.
    pub fn center(self) -> (r: Vec2)
        ensures
            r == rect_center(self.min, self.max),
    {
        self.min.add(self.half_size())
    }

    /// Move the box so its center sits at `center`, keeping size and rotation.
    pub fn set_center(&mut self, center: Vec2)
        ensures
            *final(self) == (Box2D {
                min: vsub(center, rect_half_size(old(self).min, old(self).max)),
                max: vadd(center, rect_half_size(old(self).min, old(self).max)),
                rotation: old(self).rotation,
            }),
    {
        let half = self.half_size();
        self.min = center.sub(half);
        self.max = center.add(half);
    }
}

/// The corners of an oriented box: the unrotated corners, each rotated about
/// the box center.
pub open spec fn box2d_corners(b: Box2D) -> Seq<Vec2> {
    rect_corners(b.min, b.max).map_values(
        |p: Vec2| rot_around(b.rotation, p, rect_center(b.min, b.max)),
    )
}

/// A convex shape that exposes four corner vertices for axis projections.
pub trait Convex {
    /// The corners, as a mathematical sequence.
    spec fn spec_vertices(&self) -> Seq<Vec2>;

    /// The corners, in a fixed order.
    fn get_vertices(&self) -> (r: [Vec2; 4])
        ensures
            r@ == self.spec_vertices(),
            self.spec_vertices().len() == 4,
    ;
}

impl Convex for Aabb {
    open spec fn spec_vertices(&self) -> Seq<Vec2> {
        rect_corners(self.min, self.max)
    }

    fn get_vertices(&self) -> (r: [Vec2; 4])
        ensures
            r@ == self.spec_vertices(),
            self.spec_vertices().len() == 4,
    {
        let r = [
            Vec2 { x: self.min.x, y: self.min.y },
            Vec2 { x: self.min.x, y: self.max.y },
            Vec2 { x: self.max.x, y: self.min.y },
            Vec2 { x: self.max.x, y: self.max.y },
        ];
        proof {
            assert(r@ =~= rect_corners(self.min, self.max));
        }
        r
    }
}

impl Convex for Box2D {
    open spec fn spec_vertices(&self) -> Seq<Vec2> {
        box2d_corners(*self)
    }

    fn get_vertices(&self) -> (r: [Vec2; 4])
        ensures
            r@ == self.spec_vertices(),
            self.spec_vertices().len() == 4,
    {
        let center = self.center();
        let r = [
            self.rotation.rotate_around_point(Vec2 { x: self.min.x, y: self.min.y }, center),
            self.rotation.rotate_around_point(Vec2 { x: self.min.x, y: self.max.y }, center),
            self.rotation.rotate_around_point(Vec2 { x: self.max.x, y: self.min.y }, center),
            self.rotation.rotate_around_point(Vec2 { x: self.max.x, y: self.max.y }, center),
        ];
        proof {
            assert(r@ =~= box2d_corners(*self));
        }
        r
    }
}

/// A line segment between two points.
#[derive(Clone, Copy, Debug, PartialEq, Eq, Structural)]
pub struct Line2D {
    pub start: Vec2,
    pub end: Vec2,
}

impl Line2D {
    /// Build a segment from its endpoints.
    pub fn new(start: Vec2, end: Vec2) -> (r: Line2D)
        ensures
            r == (Line2D { start, end }),
    {
        Line2D { start, end }
    }

    /// The displacement from start to end.
    pub fn to_vec2(self) -> (r: Vec2)
        ensures
            r == vsub(self.end, self.start),
    {
        self.end.sub(self.start)
    }

    /// The unit direction from start to end (zero for a degenerate segment).
    pub fn direction(self) -> (r: Vec2)
        ensures
            r == vnorm(vsub(self.end, self.start)),
    {
        self.end.sub(self.start).normalize_or_zero()
    }

    /// The fixed-point squared length of the segment.
    pub fn length_squared(&self) -> (r: i64)
        ensures
            r as int == crate::vec2::vlen2(vsub(self.end, self.start)),
    {
        self.end.sub(self.start).length_squared()
    }

    /// The fixed-point length of the segment.
    pub fn length(&self) -> (r: i64)
        ensures
            r as int == crate::vec2::vlen(vsub(self.end, self.start)),
    {
        self.end.sub(self.start).length()
    }
}

/// A ray: an origin and a unit direction.
#[derive(Clone, Copy, Debug, PartialEq, Eq, Structural)]
pub struct Ray2D {
    pub origin: Vec2,
    pub direction: Vec2,
}

impl Ray2D {
    /// Build a ray; the direction is normalized (zero stays zero).
    pub fn new(origin: Vec2, direction: Vec2) -> (r: Ray2D)
        ensures
            r == (Ray2D { origin, direction: vnorm(direction) }),
    {
        Ray2D { origin, direction: direction.normalize_or_zero() }
    }
}

/// The outcome of a raycast: hit point, surface normal, and the fixed-point
/// parameter along the ray at which the hit occurs.
#[derive(Clone, Copy, Debug, PartialEq, Eq, Structural)]
pub struct RaycastResult2D {
    pub point: Vec2,
    pub normal: Vec2,
    pub t: i64,
}

/// A position paired with a rotation angle.
#[derive(Clone, Copy, Debug, PartialEq, Eq, Structural)]
pub struct Transform {
    pub position: Vec2,
    pub rotation: i64,
}

impl Transform {
    /// A transform that only translates.
    pub fn from_position(position: Vec2) -> (r: Transform)
        ensures
            r == (Transform { position, rotation: 0i64 }),
    {
        Transform { position, rotation: 0 }
    }

    /// A transform that only rotates.
    pub fn from_rotation(rotation: i64) -> (r: Transform)
        ensures
            r == (Transform { position: Vec2 { x: 0i64, y: 0i64 }, rotation }),
    {
        Transform { position: Vec2 { x: 0, y: 0 }, rotation }
    }
}

impl Default for Transform {
    /// The identity transform.
    fn default() -> (r: Transform)
        ensures
            r == (Transform { position: Vec2 { x: 0i64, y: 0i64 }, rotation: 0i64 }),
    {
        Transform { position: Vec2 { x: 0, y: 0 }, rotation: 0 }
    }
}

impl From<Box2D> for Aabb {
    /// The unrotated span of an oriented box.
    fn from(b: Box2D) -> (r: Aabb) {
        Aabb { min: b.min, max: b.max }
    }
}

impl vstd::std_specs::convert::FromSpecImpl<Box2D> for Aabb {
    open spec fn obeys_from_spec() -> bool {
        true
    }

    open spec fn from_spec(b: Box2D) -> Aabb {
        Aabb { min: b.min, max: b.max }
    }
}

impl From<Aabb> for Box2D {
    /// An oriented box over the same span, with the identity rotation.
    fn from(b: Aabb) -> (r: Box2D) {
        Box2D { min: b.min, max: b.max, rotation: Rot2 { c: SCALE, s: 0 } }
    }
}

impl vstd::std_specs::convert::FromSpecImpl<Aabb> for Box2D {
    open spec fn obeys_from_spec() -> bool {
        true
    }

    open spec fn from_spec(b: Aabb) -> Box2D {
        Box2D { min: b.min, max: b.max, rotation: Rot2 { c: SCALE, s: 0i64 } }
    }
}

} // verus!
