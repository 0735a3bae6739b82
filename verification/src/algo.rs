//! Narrow-phase collision tests and manifold construction.
//!
//! Each routine's contract restates the geometry exactly over the fixed-point
//! spec functions: a manifold is produced if and only if the shapes overlap,
//! and its normal, contact points and depth are pinned to the stated
//! formulas.

use vstd::prelude::*;

use crate::fx::{fabs, fadd, fmax, fmin, fsub, sp_abs, sp_add, sp_max, sp_min, sp_neg, sp_sub};
use crate::geometry::{rect_center, rect_corners, rect_half_size, Aabb, Box2D, Circle, Convex};
use crate::vec2::{
    raw_norm2, rot_apply, rot_around, vadd, vclamp, vdot, vlen, vneg, vnorm, vscale, vsub, Rot2,
    Vec2,
};

verus! {

/// The geometric outcome of a confirmed collision: a normal, one contact
/// point per shape, and the (non-negative) penetration depth.
#[derive(Clone, Copy, Debug, PartialEq, Eq, Structural)]
pub struct CollisionManifold {
    pub normal: Vec2,
    pub contact_point_a: Vec2,
    pub contact_point_b: Vec2,
    pub depth: i64,
}

/// Circles overlap when their center distance is at most the radius sum
/// (measured exactly on the raw components).
pub open spec fn circles_overlap(c1: Circle, c2: Circle) -> bool {
    let rsum = sp_add(c1.radius as int, c2.radius as int);
    raw_norm2(vsub(c2.center, c1.center)) <= rsum * rsum
}

/// The circle-circle manifold: normal from the first circle toward the
/// second (zero when the centers coincide), contact points on each surface
/// along the normal, depth the gap between center distance and radius sum.
pub open spec fn circle_circle_manifold(c1: Circle, c2: Circle) -> Option<CollisionManifold> {
    if !circles_overlap(c1, c2) {
        None
    } else {
        let rsum = sp_add(c1.radius as int, c2.radius as int);
        let d = vsub(c2.center, c1.center);
        let n = vnorm(d);
        Some(
            CollisionManifold {
                normal: n,
                contact_point_a: vadd(c1.center, vscale(n, c1.radius as int)),
                contact_point_b: vadd(c2.center, vscale(n, c2.radius as int)),
                depth: sp_abs(sp_sub(vlen(d), rsum)) as i64,
            },
        )
    }
}

/// Compare the exact squared center distance against a saturating radius
/// sum's square.
pub(crate) fn overlap_test(delta: Vec2, rsum: i64) -> (r: bool)
    ensures
        r <==> raw_norm2(delta) <= (rsum as int) * (rsum as int),
{
    let n2: u128 = delta.raw_len2();
    proof {
        crate::fx::lemma_prod_in_range(rsum as int, rsum as int);
        assert((rsum as i128) * (rsum as i128) == (rsum as int) * (rsum as int))
            by (nonlinear_arith);
        assert((rsum as int) * (rsum as int) >= 0) by (nonlinear_arith);
    }
    let rs: i128 = (rsum as i128) * (rsum as i128);
    n2 <= rs as u128
}

/// Build the circle-circle manifold, exactly as
/// [`circle_circle_manifold`] states it.
pub fn circle_circle(c1: Circle, c2: Circle) -> (r: Option<CollisionManifold>)
    ensures
        r == circle_circle_manifold(c1, c2),
        r is Some <==> circles_overlap(c1, c2),
{
    let rsum: i64 = fadd(c1.radius, c2.radius);
    let d: Vec2 = c2.center.sub(c1.center);
    if !overlap_test(d, rsum) {
        return None;
    }
    let normal: Vec2 = d.normalize_or_zero();
    let depth: i64 = fabs(fsub(d.length(), rsum));
    let contact_point_a: Vec2 = c1.center.add(normal.scale(c1.radius));
    let contact_point_b: Vec2 = c2.center.add(normal.scale(c2.radius));
    Some(CollisionManifold { normal, contact_point_a, contact_point_b, depth })
}

/// A circle overlaps an axis-aligned box when the circle center, clamped to
/// the box's centered extents, lies within one radius of the center.
pub open spec fn aabb_circle_overlap(aabb: Aabb, circle: Circle) -> bool {
    let delta = vsub(circle.center, rect_center(aabb.min, aabb.max));
    let half = rect_half_size(aabb.min, aabb.max);
    let local_point = vsub(delta, vclamp(delta, vneg(half), half));
    raw_norm2(local_point) <= (circle.radius as int) * (circle.radius as int)
}

/// The axis-aligned-box-versus-circle manifold: normal from the closest box
/// point toward the circle center, depth the radius minus that distance.
pub open spec fn aabb_circle_manifold(aabb: Aabb, circle: Circle) -> Option<CollisionManifold> {
    if !aabb_circle_overlap(aabb, circle) {
        None
    } else {
        let bc = rect_center(aabb.min, aabb.max);
        let delta = vsub(circle.center, bc);
        let half = rect_half_size(aabb.min, aabb.max);
        let local_point = vsub(delta, vclamp(delta, vneg(half), half));
        let n = vnorm(local_point);
        Some(
            CollisionManifold {
                normal: n,
                contact_point_a: bc,
                contact_point_b: vscale(vneg(n), circle.radius as int),
                depth: sp_sub(circle.radius as int, vlen(local_point)) as i64,
            },
        )
    }
}

/// Build the axis-aligned-box-versus-circle manifold, exactly as
/// [`aabb_circle_manifold`] states it.
pub fn find_aabb_circle_collision_features(aabb: Aabb, circle: Circle) -> (r: Option<
    CollisionManifold,
>)
    ensures
        r == aabb_circle_manifold(aabb, circle),
        r is Some <==> aabb_circle_overlap(aabb, circle),
{
    let bc: Vec2 = aabb.center();
    let delta: Vec2 = circle.center.sub(bc);
    let half: Vec2 = aabb.half_size();
    let closest: Vec2 = delta.clamp(half.neg(), half);
    let local_point: Vec2 = delta.sub(closest);
    if !overlap_test(local_point, circle.radius) {
        return None;
    }
    let normal: Vec2 = local_point.normalize_or_zero();
    let depth: i64 = fsub(circle.radius, local_point.length());
    let contact_point_b: Vec2 = normal.neg().scale(circle.radius);
    Some(CollisionManifold { normal, contact_point_a: bc, contact_point_b, depth })
}

/// An oriented box overlaps a circle when the circle, carried into the box's
/// unrotated frame by the inverse rotation, overlaps the plain box.
pub open spec fn box2d_circle_overlap(b: Box2D, circle: Circle) -> bool {
    let bc = rect_center(b.min, b.max);
    let local_center = rot_around(Rot2 { c: b.rotation.c, s: sp_neg(b.rotation.s as int) as i64 },
        circle.center, bc);
    aabb_circle_overlap(
        Aabb { min: b.min, max: b.max },
        Circle { center: local_center, radius: circle.radius },
    )
}

/// The oriented-box-versus-circle manifold: the local-frame manifold with
/// its normal rotated back into world space.
pub open spec fn box2d_circle_manifold(b: Box2D, circle: Circle) -> Option<CollisionManifold> {
    let bc = rect_center(b.min, b.max);
    let local_center = rot_around(Rot2 { c: b.rotation.c, s: sp_neg(b.rotation.s as int) as i64 },
        circle.center, bc);
    match aabb_circle_manifold(
        Aabb { min: b.min, max: b.max },
        Circle { center: local_center, radius: circle.radius },
    ) {
        None => None,
        Some(m) => Some(
            CollisionManifold {
                normal: rot_apply(b.rotation, m.normal),
                contact_point_a: m.contact_point_a,
                contact_point_b: m.contact_point_b,
                depth: m.depth,
            },
        ),
    }
}

/// Build the oriented-box-versus-circle manifold, exactly as
/// [`box2d_circle_manifold`] states it.
pub fn box2d_circle(b: Box2D, circle: Circle) -> (r: Option<CollisionManifold>)
    ensures
        r == box2d_circle_manifold(b, circle),
        r is Some <==> box2d_circle_overlap(b, circle),
{
    let bc: Vec2 = b.center();
    let local_center: Vec2 = b.rotation.inverse().rotate_around_point(circle.center, bc);
    let local_circle = Circle { center: local_center, radius: circle.radius };
    match find_aabb_circle_collision_features(b.to_aabb(), local_circle) {
        None => None,
        Some(m) => {
            let normal: Vec2 = b.rotation.rotate(m.normal);
            Some(
                CollisionManifold {
                    normal,
                    contact_point_a: m.contact_point_a,
                    contact_point_b: m.contact_point_b,
                    depth: m.depth,
                },
            )
        },
    }
}

/// Axis-aligned boxes overlap strictly: on each axis, the center distance is
/// less than the summed half sizes.
pub open spec fn aabb_aabb_overlap(b1: Aabb, b2: Aabb) -> bool {
    let delta = vsub(rect_center(b2.min, b2.max), rect_center(b1.min, b1.max));
    let total = vadd(rect_half_size(b1.min, b1.max), rect_half_size(b2.min, b2.max));
    sp_abs(delta.x as int) < total.x as int && sp_abs(delta.y as int) < total.y as int
}

/// Strict overlap test for two axis-aligned boxes.
pub fn aabb_aabb_test(rect1: Aabb, rect2: Aabb) -> (r: bool)
    ensures
        r == aabb_aabb_overlap(rect1, rect2),
{
    let delta: Vec2 = rect2.center().sub(rect1.center());
    let total: Vec2 = rect1.half_size().add(rect2.half_size());
    let ax: i64 = fabs(delta.x);
    let ay: i64 = fabs(delta.y);
    ax < total.x && ay < total.y
}

/// One step of the minimum-overlap fold: keep the smaller depth, first value
/// winning ties.
pub open spec fn fold_min_axis(ds: Seq<(int, Vec2)>, cur_d: int, cur_a: Vec2) -> (int, Vec2)
    decreases ds.len(),
{
    if ds.len() == 0 {
        (cur_d, cur_a)
    } else if ds[0].0 < cur_d {
        fold_min_axis(ds.drop_first(), ds[0].0, ds[0].1)
    } else {
        fold_min_axis(ds.drop_first(), cur_d, cur_a)
    }
}

/// The candidate face distances of an axis-aligned box pair, in the fixed
/// order left, right, bottom, top.
pub open spec fn aabb_face_distances(b1: Aabb, b2: Aabb) -> Seq<(int, Vec2)> {
    seq![
        (sp_sub(b2.max.x as int, b1.min.x as int), Vec2 { x: -65536i64, y: 0i64 }),
        (sp_sub(b1.max.x as int, b2.min.x as int), Vec2 { x: 65536i64, y: 0i64 }),
        (sp_sub(b2.max.y as int, b1.min.y as int), Vec2 { x: 0i64, y: -65536i64 }),
        (sp_sub(b1.max.y as int, b2.min.y as int), Vec2 { x: 0i64, y: 65536i64 }),
    ]
}

/// The axis-aligned-box-pair manifold: if the boxes overlap strictly, the
/// normal is the unit face direction with the smallest face distance (first
/// face winning ties) and the depth is that distance.
pub open spec fn aabb_aabb_manifold(b1: Aabb, b2: Aabb) -> Option<CollisionManifold> {
    if !aabb_aabb_overlap(b1, b2) {
        None
    } else {
        let ds = aabb_face_distances(b1, b2);
        let best = fold_min_axis(ds, i64::MAX as int, Vec2 { x: -65536i64, y: 0i64 });
        Some(
            CollisionManifold {
                normal: best.1,
                contact_point_a: rect_center(b1.min, b1.max),
                contact_point_b: rect_center(b2.min, b2.max),
                depth: best.0 as i64,
            },
        )
    }
}

/// Build the axis-aligned-box-pair manifold, exactly as
/// [`aabb_aabb_manifold`] states it.
pub fn aabb_aabb(b1: Aabb, b2: Aabb) -> (r: Option<CollisionManifold>)
    ensures
        r == aabb_aabb_manifold(b1, b2),
        r is Some <==> aabb_aabb_overlap(b1, b2),
{
    if !aabb_aabb_test(b1, b2) {
        return None;
    }
    let d0: i64 = fsub(b2.max.x, b1.min.x);
    let d1: i64 = fsub(b1.max.x, b2.min.x);
    let d2: i64 = fsub(b2.max.y, b1.min.y);
    let d3: i64 = fsub(b1.max.y, b2.min.y);
    let f0 = Vec2 { x: -65536i64, y: 0i64 };
    let f1 = Vec2 { x: 65536i64, y: 0i64 };
    let f2 = Vec2 { x: 0i64, y: -65536i64 };
    let f3 = Vec2 { x: 0i64, y: 65536i64 };
    let mut depth: i64 = i64::MAX;
    let mut best_axis: Vec2 = f0;
    if d0 < depth {
        depth = d0;
        best_axis = f0;
    }
    if d1 < depth {
        depth = d1;
        best_axis = f1;
    }
    if d2 < depth {
        depth = d2;
        best_axis = f2;
    }
    if d3 < depth {
        depth = d3;
        best_axis = f3;
    }
    proof {
        let ds = aabb_face_distances(b1, b2);
        assert(ds.drop_first() =~= aabb_face_distances(b1, b2).subrange(1, 4));
        reveal_with_fuel(fold_min_axis, 5);
    }
    Some(
        CollisionManifold {
            normal: best_axis,
            contact_point_a: b1.center(),
            contact_point_b: b2.center(),
            depth,
        },
    )
}

/// One step of the interval fold: widen the running minimum or maximum by
/// the next projection (a projection below the minimum never widens the
/// maximum, mirroring the scan order).
pub open spec fn proj_fold(ps: Seq<int>, mn: int, mx: int) -> (int, int)
    decreases ps.len(),
{
    if ps.len() == 0 {
        (mn, mx)
    } else if ps[0] < mn {
        proj_fold(ps.drop_first(), ps[0], mx)
    } else if ps[0] > mx {
        proj_fold(ps.drop_first(), mn, ps[0])
    } else {
        proj_fold(ps.drop_first(), mn, mx)
    }
}

/// The fixed-point projections of a corner sequence onto an axis.
pub open spec fn axis_dots(vs: Seq<Vec2>, axis: Vec2) -> Seq<int> {
    vs.map_values(|v: Vec2| vdot(axis, v))
}

/// The 1D interval covered by a corner sequence projected onto an axis,
/// scanned from the first corner's projection.
pub open spec fn interval_of(vs: Seq<Vec2>, axis: Vec2) -> (int, int)
    recommends
        vs.len() > 0,
{
    proj_fold(axis_dots(vs, axis), vdot(axis, vs[0]), vdot(axis, vs[0]))
}

/// Project a convex shape's corners onto an axis; the result holds the
/// interval's minimum in `x` and maximum in `y`.
pub fn get_interval<S: Convex>(shape: &S, axis: Vec2) -> (r: Vec2)
    ensures
        r.x as int == interval_of(shape.spec_vertices(), axis).0,
        r.y as int == interval_of(shape.spec_vertices(), axis).1,
{
    let vs: [Vec2; 4] = shape.get_vertices();
    let d0: i64 = axis.dot(vs[0]);
    let d1: i64 = axis.dot(vs[1]);
    let d2: i64 = axis.dot(vs[2]);
    let d3: i64 = axis.dot(vs[3]);
    let mut mn: i64 = d0;
    let mut mx: i64 = d0;
    if d1 < mn {
        mn = d1;
    } else if d1 > mx {
        mx = d1;
    }
    if d2 < mn {
        mn = d2;
    } else if d2 > mx {
        mx = d2;
    }
    if d3 < mn {
        mn = d3;
    } else if d3 > mx {
        mx = d3;
    }
    proof {
        let sv = shape.spec_vertices();
        assert(axis_dots(sv, axis) =~= seq![
            vdot(axis, sv[0]),
            vdot(axis, sv[1]),
            vdot(axis, sv[2]),
            vdot(axis, sv[3]),
        ]);
        assert(axis_dots(sv, axis).drop_first() =~= seq![
            vdot(axis, sv[1]),
            vdot(axis, sv[2]),
            vdot(axis, sv[3]),
        ]);
        assert(axis_dots(sv, axis).drop_first().drop_first() =~= seq![
            vdot(axis, sv[2]),
            vdot(axis, sv[3]),
        ]);
        assert(axis_dots(sv, axis).drop_first().drop_first().drop_first() =~= seq![
            vdot(axis, sv[3]),
        ]);
        assert(axis_dots(sv, axis).drop_first().drop_first().drop_first().drop_first()
            =~= Seq::<int>::empty());
        reveal_with_fuel(proj_fold, 6);
    }
    Vec2 { x: mn, y: mx }
}

/// The four candidate separating axes of an oriented box pair: each box's
/// local X and Y axes, rotated by its rotation.
pub open spec fn box_axes(b1: Box2D, b2: Box2D) -> Seq<Vec2> {
    seq![
        rot_apply(b1.rotation, Vec2 { x: 65536i64, y: 0i64 }),
        rot_apply(b1.rotation, Vec2 { x: 0i64, y: 65536i64 }),
        rot_apply(b2.rotation, Vec2 { x: 65536i64, y: 0i64 }),
        rot_apply(b2.rotation, Vec2 { x: 0i64, y: 65536i64 }),
    ]
}

/// Walk the candidate axes in order: stop with nothing as soon as one axis
/// separates the boxes, otherwise keep the axis of minimum overlap (the
/// first such axis winning ties).
pub open spec fn sat_scan(b1: Box2D, b2: Box2D, axes: Seq<Vec2>, cur_d: int, cur_a: Vec2) -> Option<
    (int, Vec2),
>
    decreases axes.len(),
{
    if axes.len() == 0 {
        Some((cur_d, cur_a))
    } else {
        let i1 = interval_of(crate::geometry::box2d_corners(b1), axes[0]);
        let i2 = interval_of(crate::geometry::box2d_corners(b2), axes[0]);
        if i1.1 < i2.0 || i1.0 > i2.1 {
            None
        } else {
            let ov = sp_sub(sp_min(i1.1, i2.1), sp_max(i1.0, i2.0));
            if ov < cur_d {
                sat_scan(b1, b2, axes.drop_first(), ov, axes[0])
            } else {
                sat_scan(b1, b2, axes.drop_first(), cur_d, cur_a)
            }
        }
    }
}

/// The separating-axis manifold of an oriented box pair: nothing if any
/// candidate axis separates them, otherwise the minimum-overlap axis as the
/// normal with the overlap as the depth.
pub open spec fn box2d_box2d_manifold(b1: Box2D, b2: Box2D) -> Option<CollisionManifold> {
    let axes = box_axes(b1, b2);
    match sat_scan(b1, b2, axes, i64::MAX as int, axes[0]) {
        None => None,
        Some(best) => Some(
            CollisionManifold {
                normal: best.1,
                contact_point_a: rect_center(b1.min, b1.max),
                contact_point_b: rect_center(b2.min, b2.max),
                depth: best.0 as i64,
            },
        ),
    }
}

/// Check one candidate axis: nothing when the projections are disjoint,
/// otherwise the overlap amount.
fn axis_overlap(b1: &Box2D, b2: &Box2D, axis: Vec2) -> (r: Option<i64>)
    ensures
        ({
            let i1 = interval_of(crate::geometry::box2d_corners(*b1), axis);
            let i2 = interval_of(crate::geometry::box2d_corners(*b2), axis);
            &&& (r is None <==> (i1.1 < i2.0 || i1.0 > i2.1))
            &&& (r is Some ==> r->0 as int == sp_sub(sp_min(i1.1, i2.1), sp_max(i1.0, i2.0)))
        }),
{
    let i1: Vec2 = get_interval(b1, axis);
    let i2: Vec2 = get_interval(b2, axis);
    if i1.y < i2.x || i1.x > i2.y {
        None
    } else {
        Some(fsub(fmin(i1.y, i2.y), fmax(i1.x, i2.x)))
    }
}

/// Build the separating-axis manifold of an oriented box pair, exactly as
/// [`box2d_box2d_manifold`] states it.
pub fn box2d_box2d(b1: Box2D, b2: Box2D) -> (r: Option<CollisionManifold>)
    ensures
        r == box2d_box2d_manifold(b1, b2),
{
    let xu = Vec2 { x: 65536i64, y: 0i64 };
    let yu = Vec2 { x: 0i64, y: 65536i64 };
    let a0: Vec2 = b1.rotation.rotate(xu);
    let a1: Vec2 = b1.rotation.rotate(yu);
    let a2: Vec2 = b2.rotation.rotate(xu);
    let a3: Vec2 = b2.rotation.rotate(yu);
    let ghost axes = box_axes(b1, b2);
    proof {
        assert(axes.drop_first() =~= seq![a1, a2, a3]);
        assert(axes.drop_first().drop_first() =~= seq![a2, a3]);
        assert(axes.drop_first().drop_first().drop_first() =~= seq![a3]);
        assert(axes.drop_first().drop_first().drop_first().drop_first() =~= Seq::<Vec2>::empty());
        reveal_with_fuel(sat_scan, 6);
    }
    let mut depth: i64 = i64::MAX;
    let mut best_axis: Vec2 = a0;
    let r0 = axis_overlap(&b1, &b2, a0);
    match r0 {
        None => {
            return None;
        },
        Some(ov) => {
            if ov < depth {
                depth = ov;
                best_axis = a0;
            }
        },
    }
    let r1 = axis_overlap(&b1, &b2, a1);
    match r1 {
        None => {
            return None;
        },
        Some(ov) => {
            if ov < depth {
                depth = ov;
                best_axis = a1;
            }
        },
    }
    let r2 = axis_overlap(&b1, &b2, a2);
    match r2 {
        None => {
            return None;
        },
        Some(ov) => {
            if ov < depth {
                depth = ov;
                best_axis = a2;
            }
        },
    }
    let r3 = axis_overlap(&b1, &b2, a3);
    match r3 {
        None => {
            return None;
        },
        Some(ov) => {
            if ov < depth {
                depth = ov;
                best_axis = a3;
            }
        },
    }
    Some(
        CollisionManifold {
            normal: best_axis,
            contact_point_a: b1.center(),
            contact_point_b: b2.center(),
            depth,
        },
    )
}

/// Non-strict interval overlap of two shapes' projections on one axis.
pub open spec fn overlap_on_axis(vs1: Seq<Vec2>, vs2: Seq<Vec2>, axis: Vec2) -> bool {
    let i1 = interval_of(vs1, axis);
    let i2 = interval_of(vs2, axis);
    i1.1 >= i2.0 && i1.0 <= i2.1
}

/// Whether two circles overlap (boolean narrow-phase test).
pub fn circle_and_circle(c1: Circle, c2: Circle) -> (r: bool)
    ensures
        r == circles_overlap(c1, c2),
{
    let radii_sum: i64 = fadd(c1.radius, c2.radius);
    overlap_test(c2.center.sub(c1.center), radii_sum)
}

/// A circle overlaps an axis-aligned box when the circle center, clamped to
/// the box's corners, lies within one radius of the center.
pub open spec fn circle_aabb_overlap(circle: Circle, aabb: Aabb) -> bool {
    let closest = vclamp(circle.center, aabb.min, aabb.max);
    raw_norm2(vsub(closest, circle.center)) <= (circle.radius as int) * (circle.radius as int)
}

/// Whether a circle overlaps an axis-aligned box (boolean test over the
/// box's absolute extents).
pub fn circle_and_aabb(circle: Circle, aabb: Aabb) -> (r: bool)
    ensures
        r == circle_aabb_overlap(circle, aabb),
{
    let closest: Vec2 = circle.center.clamp(aabb.min, aabb.max);
    overlap_test(closest.sub(circle.center), circle.radius)
}

/// A circle overlaps an oriented box when, carried into the box's unrotated
/// frame, it overlaps the box's span moved to the origin.
pub open spec fn circle_box2d_overlap(circle: Circle, b: Box2D) -> bool {
    let local_rect = Aabb { min: Vec2 { x: 0i64, y: 0i64 }, max: vsub(b.max, b.min) };
    let centered = vsub(circle.center, rect_center(b.min, b.max));
    let rotated = rot_apply(
        Rot2 { c: b.rotation.c, s: sp_neg(b.rotation.s as int) as i64 },
        centered,
    );
    let local_pos = vadd(rotated, rect_half_size(b.min, b.max));
    circle_aabb_overlap(Circle { center: local_pos, radius: circle.radius }, local_rect)
}

/// Whether a circle overlaps an oriented box (boolean test).
pub fn circle_and_obb(circle: Circle, obb: Box2D) -> (r: bool)
    ensures
        r == circle_box2d_overlap(circle, obb),
{
    let local_rect = Aabb { min: Vec2 { x: 0i64, y: 0i64 }, max: obb.size() };
    let centered: Vec2 = circle.center.sub(obb.center());
    let rotated: Vec2 = obb.rotation.inverse().rotate(centered);
    let local_pos: Vec2 = rotated.add(obb.half_size());
    circle_and_aabb(Circle { center: local_pos, radius: circle.radius }, local_rect)
}

/// Two axis-aligned boxes overlap (non-strictly) when their projections
/// overlap on both coordinate axes.
pub open spec fn aabb_aabb_sat_overlap(b1: Aabb, b2: Aabb) -> bool {
    let vs1 = rect_corners(b1.min, b1.max);
    let vs2 = rect_corners(b2.min, b2.max);
    overlap_on_axis(vs1, vs2, Vec2 { x: 65536i64, y: 0i64 }) && overlap_on_axis(
        vs1,
        vs2,
        Vec2 { x: 0i64, y: 65536i64 },
    )
}

/// Whether two axis-aligned boxes overlap on both coordinate axes.
pub fn aabb_and_aabb(rect1: Aabb, rect2: Aabb) -> (r: bool)
    ensures
        r == aabb_aabb_sat_overlap(rect1, rect2),
{
    let xu = Vec2 { x: 65536i64, y: 0i64 };
    let yu = Vec2 { x: 0i64, y: 65536i64 };
    let on_x: bool = is_overlapping_on_axis(&rect1, &rect2, xu);
    let on_y: bool = is_overlapping_on_axis(&rect1, &rect2, yu);
    on_x && on_y
}

/// Non-strict interval overlap of two convex shapes on one axis.
fn is_overlapping_on_axis<S1: Convex, S2: Convex>(shape1: &S1, shape2: &S2, axis: Vec2) -> (r:
    bool)
    ensures
        r == overlap_on_axis(shape1.spec_vertices(), shape2.spec_vertices(), axis),
{
    let i1: Vec2 = get_interval(shape1, axis);
    let i2: Vec2 = get_interval(shape2, axis);
    i1.y >= i2.x && i1.x <= i2.y
}

/// An axis-aligned box overlaps an oriented box when their projections
/// overlap on both coordinate axes and on both of the oriented box's own
/// axes.
pub open spec fn aabb_box2d_overlap(aabb: Aabb, b: Box2D) -> bool {
    let vs1 = rect_corners(aabb.min, aabb.max);
    let vs2 = crate::geometry::box2d_corners(b);
    &&& overlap_on_axis(vs1, vs2, Vec2 { x: 65536i64, y: 0i64 })
    &&& overlap_on_axis(vs1, vs2, Vec2 { x: 0i64, y: 65536i64 })
    &&& overlap_on_axis(vs1, vs2, rot_apply(b.rotation, Vec2 { x: 65536i64, y: 0i64 }))
    &&& overlap_on_axis(vs1, vs2, rot_apply(b.rotation, Vec2 { x: 0i64, y: 65536i64 }))
}

/// Whether an axis-aligned box overlaps an oriented box.
pub fn aabb_and_obb(aabb: Aabb, obb: Box2D) -> (r: bool)
    ensures
        r == aabb_box2d_overlap(aabb, obb),
{
    let xu = Vec2 { x: 65536i64, y: 0i64 };
    let yu = Vec2 { x: 0i64, y: 65536i64 };
    let a2: Vec2 = obb.rotation.rotate(xu);
    let a3: Vec2 = obb.rotation.rotate(yu);
    let r0: bool = is_overlapping_on_axis(&aabb, &obb, xu);
    let r1: bool = is_overlapping_on_axis(&aabb, &obb, yu);
    let r2: bool = is_overlapping_on_axis(&aabb, &obb, a2);
    let r3: bool = is_overlapping_on_axis(&aabb, &obb, a3);
    r0 && r1 && r2 && r3
}

/// Two oriented boxes overlap when their projections overlap on all four of
/// their own axes.
pub open spec fn box2d_box2d_sat_overlap(b1: Box2D, b2: Box2D) -> bool {
    let vs1 = crate::geometry::box2d_corners(b1);
    let vs2 = crate::geometry::box2d_corners(b2);
    &&& overlap_on_axis(vs1, vs2, rot_apply(b1.rotation, Vec2 { x: 65536i64, y: 0i64 }))
    &&& overlap_on_axis(vs1, vs2, rot_apply(b1.rotation, Vec2 { x: 0i64, y: 65536i64 }))
    &&& overlap_on_axis(vs1, vs2, rot_apply(b2.rotation, Vec2 { x: 65536i64, y: 0i64 }))
    &&& overlap_on_axis(vs1, vs2, rot_apply(b2.rotation, Vec2 { x: 0i64, y: 65536i64 }))
}

/// Whether two oriented boxes overlap on all four candidate axes.
pub fn obb_and_obb(obb1: Box2D, obb2: Box2D) -> (r: bool)
    ensures
        r == box2d_box2d_sat_overlap(obb1, obb2),
{
    let xu = Vec2 { x: 65536i64, y: 0i64 };
    let yu = Vec2 { x: 0i64, y: 65536i64 };
    let a0: Vec2 = obb1.rotation.rotate(xu);
    let a1: Vec2 = obb1.rotation.rotate(yu);
    let a2: Vec2 = obb2.rotation.rotate(xu);
    let a3: Vec2 = obb2.rotation.rotate(yu);
    let r0: bool = is_overlapping_on_axis(&obb1, &obb2, a0);
    let r1: bool = is_overlapping_on_axis(&obb1, &obb2, a1);
    let r2: bool = is_overlapping_on_axis(&obb1, &obb2, a2);
    let r3: bool = is_overlapping_on_axis(&obb1, &obb2, a3);
    r0 && r1 && r2 && r3
}

/// Build the circle-circle manifold (alias used by the dynamics layer).
pub fn find_circle_circle_collision_features(c1: Circle, c2: Circle) -> (r: Option<
    CollisionManifold,
>)
    ensures
        r == circle_circle_manifold(c1, c2),
        r is Some <==> circles_overlap(c1, c2),
{
    circle_circle(c1, c2)
}

/// Build the oriented-box-versus-circle manifold (alias used by the
/// dynamics layer).
pub fn find_box2d_circle_collision_features(box2d: Box2D, circle: Circle) -> (r: Option<
    CollisionManifold,
>)
    ensures
        r == box2d_circle_manifold(box2d, circle),
        r is Some <==> box2d_circle_overlap(box2d, circle),
{
    box2d_circle(box2d, circle)
}

/// Build the axis-aligned-box-pair manifold (alias used by the dynamics
/// layer).
pub fn find_aabb_aabb_collision_features(b1: Aabb, b2: Aabb) -> (r: Option<CollisionManifold>)
    ensures
        r == aabb_aabb_manifold(b1, b2),
        r is Some <==> aabb_aabb_overlap(b1, b2),
{
    aabb_aabb(b1, b2)
}

/// Build the separating-axis manifold of an oriented box pair (alias used
/// by the dynamics layer).
pub fn find_box2d_box2d_collision_features(b1: Box2D, b2: Box2D) -> (r: Option<CollisionManifold>)
    ensures
        r == box2d_box2d_manifold(b1, b2),
{
    box2d_box2d(b1, b2)
}

} // verus!
