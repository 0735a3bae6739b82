//! Auxiliary geometric queries: point containment, segment intersection and
//! raycasts, sharing the collision module's conventions.

use vstd::prelude::*;

use crate::algo::overlap_test;
use crate::fx::{
    fadd, fdiv, fmax, fmin, fmul, fsqrt, fsub, sp_add, sp_div, sp_max, sp_min, sp_mul, sp_neg,
    sp_sqrt, sp_sub,
};
use crate::geometry::{
    rect_center, rect_half_size, Aabb, Box2D, Circle, Line2D, Ray2D, RaycastResult2D,
};
use crate::vec2::{
    raw_norm2, rot_apply, rot_around, vadd, vdot, vlen2, vneg, vnorm, vscale, vsub, Rot2, Vec2,
};

verus! {

/// A point lies on a line when it satisfies the line's slope-intercept
/// equation exactly (a vertical line matches on the X coordinate alone).
pub open spec fn point_on_line(point: Vec2, line: Line2D) -> bool {
    let dx = sp_sub(line.end.x as int, line.start.x as int);
    if dx == 0 {
        point.x == line.start.x
    } else {
        let dy = sp_sub(line.end.y as int, line.start.y as int);
        let slope = sp_div(dy, dx);
        let y_intercept = sp_sub(line.end.y as int, sp_mul(slope, line.end.x as int));
        point.y as int == sp_add(sp_mul(slope, point.x as int), y_intercept)
    }
}

/// Whether a point lies on a line, exactly as [`point_on_line`] states.
pub fn is_point_on_line(point: Vec2, line: Line2D) -> (r: bool)
    ensures
        r == point_on_line(point, line),
{
    let dx: i64 = fsub(line.end.x, line.start.x);
    if dx == 0 {
        return point.x == line.start.x;
    }
    let dy: i64 = fsub(line.end.y, line.start.y);
    let slope: i64 = fdiv(dy, dx);
    let y_intercept: i64 = fsub(line.end.y, fmul(slope, line.end.x));
    point.y == fadd(fmul(slope, point.x), y_intercept)
}

/// A point lies in a circle when it is within one radius of the center.
pub open spec fn point_in_circle(point: Vec2, circle: Circle) -> bool {
    raw_norm2(vsub(point, circle.center)) <= (circle.radius as int) * (circle.radius as int)
}

/// Whether a point lies in a circle.
pub fn is_point_in_circle(point: Vec2, circle: Circle) -> (r: bool)
    ensures
        r == point_in_circle(point, circle),
{
    overlap_test(point.sub(circle.center), circle.radius)
}

/// A point lies in an axis-aligned box when both coordinates are within the
/// box's extents.
pub open spec fn point_in_aabb(point: Vec2, aabb: Aabb) -> bool {
    &&& point.x >= aabb.min.x
    &&& point.x <= aabb.max.x
    &&& point.y >= aabb.min.y
    &&& point.y <= aabb.max.y
}

/// Whether a point lies in an axis-aligned box.
pub fn is_point_in_aabb(point: Vec2, aabb: Aabb) -> (r: bool)
    ensures
        r == point_in_aabb(point, aabb),
{
    point.x >= aabb.min.x && point.x <= aabb.max.x && point.y >= aabb.min.y && point.y
        <= aabb.max.y
}

/// A point lies in an oriented box when, rotated into the box's unrotated
/// frame about the box center, it lies within the box's extents.
pub open spec fn point_in_box2d(point: Vec2, b: Box2D) -> bool {
    let local = rot_around(
        Rot2 { c: b.rotation.c, s: sp_neg(b.rotation.s as int) as i64 },
        point,
        rect_center(b.min, b.max),
    );
    point_in_aabb(local, Aabb { min: b.min, max: b.max })
}

/// Whether a point lies in an oriented box.
pub fn is_point_in_box2d(point: Vec2, box2d: Box2D) -> (r: bool)
    ensures
        r == point_in_box2d(point, box2d),
{
    let local: Vec2 = box2d.rotation.inverse().rotate_around_point(point, box2d.center());
    is_point_in_aabb(local, box2d.to_aabb())
}

/// Whether a point lies in an oriented box.
pub fn is_point_in_obb(point: Vec2, obb: Box2D) -> (r: bool)
    ensures
        r == point_in_box2d(point, obb),
{
    is_point_in_box2d(point, obb)
}

/// The point on the line `b` closest in the projection sense to the tip of
/// `a`: `b` scaled by the projection coefficient of `a` onto `b` (zero when
/// `b` has zero squared length).
pub open spec fn project_onto(a: Vec2, b: Vec2) -> Vec2 {
    vscale(b, sp_div(vdot(a, b), vdot(b, b)))
}

/// A segment meets a circle when either endpoint is inside, or the point of
/// the segment's line closest to the center is inside.
pub open spec fn line_circle_hit(line: Line2D, circle: Circle) -> bool {
    if point_in_circle(line.start, circle) || point_in_circle(line.end, circle) {
        true
    } else {
        let closest = vadd(
            line.start,
            project_onto(vsub(circle.center, line.start), vsub(line.end, line.start)),
        );
        point_in_circle(closest, circle)
    }
}

/// Whether a segment meets a circle, exactly as [`line_circle_hit`] states.
pub fn line_circle(line: Line2D, circle: Circle) -> (r: bool)
    ensures
        r == line_circle_hit(line, circle),
{
    if is_point_in_circle(line.start, circle) || is_point_in_circle(line.end, circle) {
        return true;
    }
    let line_start_to_center: Vec2 = circle.center.sub(line.start);
    let line_vec: Vec2 = line.to_vec2();
    let k: i64 = fdiv(line_start_to_center.dot(line_vec), line_vec.dot(line_vec));
    let closest: Vec2 = line.start.add(line_vec.scale(k));
    is_point_in_circle(closest, circle)
}

/// The slab-method entry and exit parameters of a segment against a box,
/// with a zero direction component contributing a zero step.
pub open spec fn line_aabb_hit(line: Line2D, aabb: Aabb) -> bool {
    if point_in_aabb(line.start, aabb) || point_in_aabb(line.end, aabb) {
        true
    } else {
        let start_to_max = vsub(aabb.max, line.start);
        let start_to_min = vsub(aabb.min, line.start);
        let dir = vnorm(vsub(line.end, line.start));
        let step_x_to_max = sp_div(start_to_max.x as int, dir.x as int);
        let step_y_to_max = sp_div(start_to_max.y as int, dir.y as int);
        let step_x_to_min = sp_div(start_to_min.x as int, dir.x as int);
        let step_y_to_min = sp_div(start_to_min.y as int, dir.y as int);
        let t_min = sp_max(step_x_to_min, step_y_to_min);
        let t_max = sp_min(step_x_to_max, step_y_to_max);
        if t_max < 0 || t_min > t_max {
            false
        } else {
            let t = if t_min < 0 {
                t_max
            } else {
                t_min
            };
            t > 0 && sp_mul(t, t) < vlen2(vsub(line.end, line.start))
        }
    }
}

/// Whether a segment meets an axis-aligned box, exactly as
/// [`line_aabb_hit`] states.
pub fn line_aabb(line: Line2D, aabb: Aabb) -> (r: bool)
    ensures
        r == line_aabb_hit(line, aabb),
{
    if is_point_in_aabb(line.start, aabb) || is_point_in_aabb(line.end, aabb) {
        return true;
    }
    let start_to_max: Vec2 = aabb.max.sub(line.start);
    let start_to_min: Vec2 = aabb.min.sub(line.start);
    let dir: Vec2 = line.direction();
    let step_x_to_max: i64 = fdiv(start_to_max.x, dir.x);
    let step_y_to_max: i64 = fdiv(start_to_max.y, dir.y);
    let step_x_to_min: i64 = fdiv(start_to_min.x, dir.x);
    let step_y_to_min: i64 = fdiv(start_to_min.y, dir.y);
    let t_min: i64 = fmax(step_x_to_min, step_y_to_min);
    let t_max: i64 = fmin(step_x_to_max, step_y_to_max);
    if t_max < 0 || t_min > t_max {
        return false;
    }
    let t: i64 = if t_min < 0 {
        t_max
    } else {
        t_min
    };
    t > 0 && fmul(t, t) < line.length_squared()
}

/// A segment meets an oriented box when, rotated into the box's unrotated
/// frame about the box center, it meets the box's extents.
pub open spec fn line_box2d_hit(line: Line2D, b: Box2D) -> bool {
    let inv = Rot2 { c: b.rotation.c, s: sp_neg(b.rotation.s as int) as i64 };
    let center = rect_center(b.min, b.max);
    line_aabb_hit(
        Line2D {
            start: rot_around(inv, line.start, center),
            end: rot_around(inv, line.end, center),
        },
        Aabb { min: b.min, max: b.max },
    )
}

/// Whether a segment meets an oriented box.
pub fn line_box2d(line: Line2D, box2d: Box2D) -> (r: bool)
    ensures
        r == line_box2d_hit(line, box2d),
{
    let inv: Rot2 = box2d.rotation.inverse();
    let center: Vec2 = box2d.center();
    let rotated_start: Vec2 = inv.rotate_around_point(line.start, center);
    let rotated_end: Vec2 = inv.rotate_around_point(line.end, center);
    line_aabb(Line2D { start: rotated_start, end: rotated_end }, box2d.to_aabb())
}

/// The raycast against a circle: the entry (or exit, from inside) parameter
/// along the ray, with the surface normal at the hit point. Produced
/// whenever the perpendicular distance does not exceed the radius.
pub open spec fn raycast_circle_spec(ray: Ray2D, circle: Circle) -> Option<RaycastResult2D> {
    let otc = vsub(circle.center, ray.origin);
    let radius_squared = sp_mul(circle.radius as int, circle.radius as int);
    let l2 = vlen2(otc);
    let a = vdot(otc, ray.direction);
    let b_squared = sp_sub(l2, sp_mul(a, a));
    if sp_sub(radius_squared, b_squared) < 0 {
        None
    } else {
        let f = sp_sqrt(sp_sub(radius_squared, b_squared));
        let t = if l2 < radius_squared {
            sp_add(a, f)
        } else {
            sp_sub(a, f)
        };
        let point = vadd(ray.origin, vscale(ray.direction, t));
        Some(
            RaycastResult2D { point, normal: vnorm(vsub(point, circle.center)), t: t as i64 },
        )
    }
}

/// Cast a ray against a circle, exactly as [`raycast_circle_spec`] states.
pub fn raycast_circle(ray: Ray2D, circle: Circle) -> (r: Option<RaycastResult2D>)
    ensures
        r == raycast_circle_spec(ray, circle),
{
    let otc: Vec2 = circle.center.sub(ray.origin);
    let radius_squared: i64 = fmul(circle.radius, circle.radius);
    let l2: i64 = otc.length_squared();
    let a: i64 = otc.dot(ray.direction);
    let b_squared: i64 = fsub(l2, fmul(a, a));
    let rest: i64 = fsub(radius_squared, b_squared);
    if rest < 0 {
        return None;
    }
    let f: i64 = fsqrt(rest);
    let t: i64 = if l2 < radius_squared {
        fadd(a, f)
    } else {
        fsub(a, f)
    };
    let point: Vec2 = ray.origin.add(ray.direction.scale(t));
    let normal: Vec2 = point.sub(circle.center).normalize_or_zero();
    Some(RaycastResult2D { point, normal, t })
}

/// The slab-method raycast against an axis-aligned box: nothing when the
/// slabs never meet or the hit is behind the origin; otherwise the hit
/// point, a normal toward the origin, and the parameter.
pub open spec fn raycast_aabb_spec(ray: Ray2D, aabb: Aabb) -> Option<RaycastResult2D> {
    let otm = vsub(aabb.max, ray.origin);
    let otn = vsub(aabb.min, ray.origin);
    let step_x_to_max = sp_div(otm.x as int, ray.direction.x as int);
    let step_y_to_max = sp_div(otm.y as int, ray.direction.y as int);
    let step_x_to_min = sp_div(otn.x as int, ray.direction.x as int);
    let step_y_to_min = sp_div(otn.y as int, ray.direction.y as int);
    let t_min = sp_max(step_x_to_min, step_y_to_min);
    let t_max = sp_min(step_x_to_max, step_y_to_max);
    if t_max < 0 || t_min > t_max {
        None
    } else {
        let t = if t_min < 0 {
            t_max
        } else {
            t_min
        };
        if t > 0 {
            let point = vadd(ray.origin, vscale(ray.direction, t));
            Some(
                RaycastResult2D { point, normal: vnorm(vsub(ray.origin, point)), t: t as i64 },
            )
        } else {
            None
        }
    }
}

/// Cast a ray against an axis-aligned box, exactly as
/// [`raycast_aabb_spec`] states.
pub fn raycast_aabb(ray: Ray2D, aabb: Aabb) -> (r: Option<RaycastResult2D>)
    ensures
        r == raycast_aabb_spec(ray, aabb),
{
    let otm: Vec2 = aabb.max.sub(ray.origin);
    let otn: Vec2 = aabb.min.sub(ray.origin);
    let step_x_to_max: i64 = fdiv(otm.x, ray.direction.x);
    let step_y_to_max: i64 = fdiv(otm.y, ray.direction.y);
    let step_x_to_min: i64 = fdiv(otn.x, ray.direction.x);
    let step_y_to_min: i64 = fdiv(otn.y, ray.direction.y);
    let t_min: i64 = fmax(step_x_to_min, step_y_to_min);
    let t_max: i64 = fmin(step_x_to_max, step_y_to_max);
    if t_max < 0 || t_min > t_max {
        return None;
    }
    let t: i64 = if t_min < 0 {
        t_max
    } else {
        t_min
    };
    if t > 0 {
        let point: Vec2 = ray.origin.add(ray.direction.scale(t));
        let normal: Vec2 = ray.origin.sub(point).normalize_or_zero();
        Some(RaycastResult2D { point, normal, t })
    } else {
        None
    }
}

/// One axis of the oriented-box raycast: the projected direction and
/// offset, with a parallel ray rejected unless the origin's projection sits
/// inside the slab, and a degenerate projected direction replaced by the
/// smallest positive scalar.
pub open spec fn box_axis_steps(f: int, e: int, half: int) -> Option<(int, int)> {
    if f == 0 {
        if sp_sub(sp_neg(e), half) < 0 || sp_add(sp_neg(e), half) > 0 {
            None
        } else {
            Some((sp_div(sp_add(e, half), 1), sp_div(sp_sub(e, half), 1)))
        }
    } else {
        Some((sp_div(sp_add(e, half), f), sp_div(sp_sub(e, half), f)))
    }
}

/// The oriented-box raycast: the box's axes come from its rotation, the ray
/// is projected onto them, and the slab method decides as for the
/// axis-aligned case.
pub open spec fn raycast_box2d_spec(ray: Ray2D, b: Box2D) -> Option<RaycastResult2D> {
    let inv = Rot2 { c: b.rotation.c, s: sp_neg(b.rotation.s as int) as i64 };
    let x_axis = rot_apply(inv, Vec2 { x: 65536i64, y: 0i64 });
    let y_axis = rot_apply(inv, Vec2 { x: 0i64, y: 65536i64 });
    let half = rect_half_size(b.min, b.max);
    let p = vsub(rect_center(b.min, b.max), ray.origin);
    let fx0 = vdot(x_axis, ray.direction);
    let fy0 = vdot(y_axis, ray.direction);
    let ex = vdot(x_axis, p);
    let ey = vdot(y_axis, p);
    match box_axis_steps(fx0, ex, half.x as int) {
        None => None,
        Some(tx) => match box_axis_steps(fy0, ey, half.y as int) {
            None => None,
            Some(ty) => {
                let t_min = sp_max(sp_min(tx.0, tx.1), sp_min(ty.0, ty.1));
                let t_max = sp_min(sp_max(tx.0, tx.1), sp_max(ty.0, ty.1));
                if t_max < 0 || t_min > t_max {
                    None
                } else {
                    let t = if t_min < 0 {
                        t_max
                    } else {
                        t_min
                    };
                    if t > 0 {
                        let point = vadd(ray.origin, vscale(ray.direction, t));
                        Some(
                            RaycastResult2D {
                                point,
                                normal: vnorm(vsub(ray.origin, point)),
                                t: t as i64,
                            },
                        )
                    } else {
                        None
                    }
                }
            },
        },
    }
}

/// The executable step computation for one oriented-box axis.
fn axis_steps(f: i64, e: i64, half: i64) -> (r: Option<(i64, i64)>)
    ensures
        ({
            match box_axis_steps(f as int, e as int, half as int) {
                None => r is None,
                Some(t) => r is Some && ((r->0).0 as int, (r->0).1 as int) == t,
            }
        }),
{
    let mut fe: i64 = f;
    if fe == 0 {
        let lo: i64 = fsub(crate::fx::fneg(e), half);
        let hi: i64 = fadd(crate::fx::fneg(e), half);
        if lo < 0 || hi > 0 {
            return None;
        }
        fe = 1;
    }
    let tmax: i64 = fdiv(fadd(e, half), fe);
    let tmin: i64 = fdiv(fsub(e, half), fe);
    Some((tmax, tmin))
}

/// Cast a ray against an oriented box, exactly as [`raycast_box2d_spec`]
/// states.
pub fn raycast_box2d(ray: Ray2D, box2d: Box2D) -> (r: Option<RaycastResult2D>)
    ensures
        r == raycast_box2d_spec(ray, box2d),
{
    let inv: Rot2 = box2d.rotation.inverse();
    let x_axis: Vec2 = inv.rotate(Vec2 { x: 65536, y: 0 });
    let y_axis: Vec2 = inv.rotate(Vec2 { x: 0, y: 65536 });
    let half: Vec2 = box2d.half_size();
    let p: Vec2 = box2d.center().sub(ray.origin);
    let fx0: i64 = x_axis.dot(ray.direction);
    let fy0: i64 = y_axis.dot(ray.direction);
    let ex: i64 = x_axis.dot(p);
    let ey: i64 = y_axis.dot(p);
    let tx: Option<(i64, i64)> = axis_steps(fx0, ex, half.x);
    let sx: (i64, i64) = match tx {
        None => {
            return None;
        },
        Some(v) => v,
    };
    let ty: Option<(i64, i64)> = axis_steps(fy0, ey, half.y);
    let sy: (i64, i64) = match ty {
        None => {
            return None;
        },
        Some(v) => v,
    };
    let t_min: i64 = fmax(fmin(sx.0, sx.1), fmin(sy.0, sy.1));
    let t_max: i64 = fmin(fmax(sx.0, sx.1), fmax(sy.0, sy.1));
    if t_max < 0 || t_min > t_max {
        return None;
    }
    let t: i64 = if t_min < 0 {
        t_max
    } else {
        t_min
    };
    if t > 0 {
        let point: Vec2 = ray.origin.add(ray.direction.scale(t));
        let normal: Vec2 = ray.origin.sub(point).normalize_or_zero();
        Some(RaycastResult2D { point, normal, t })
    } else {
        None
    }
}

/// Cast a ray against a collider shape.
pub fn raycast_shape(ray: Ray2D, collider: crate::collider::ColliderShape) -> (r: Option<
    RaycastResult2D,
>)
    ensures
        r == (match collider {
            crate::collider::ColliderShape::Circle(c) => raycast_circle_spec(ray, c),
            crate::collider::ColliderShape::Box2D(b) => raycast_box2d_spec(ray, b),
        }),
{
    match collider {
        crate::collider::ColliderShape::Circle(circle) => raycast_circle(ray, circle),
        crate::collider::ColliderShape::Box2D(box2d) => raycast_box2d(ray, box2d),
    }
}

/// Whether a point lies on a line (alias sharing the same contract).
pub fn is_point_on_line_2d(point: Vec2, line: Line2D) -> (r: bool)
    ensures
        r == point_on_line(point, line),
{
    is_point_on_line(point, line)
}

/// Whether a segment meets a circle (alias sharing the same contract).
pub fn line_and_circle(line: Line2D, circle: Circle) -> (r: bool)
    ensures
        r == line_circle_hit(line, circle),
{
    line_circle(line, circle)
}

/// Whether a segment meets a circle (alias sharing the same contract).
pub fn is_line_2d_intersecting_circle(line: Line2D, circle: Circle) -> (r: bool)
    ensures
        r == line_circle_hit(line, circle),
{
    line_circle(line, circle)
}

/// Whether a segment meets an axis-aligned box (alias sharing the same
/// contract).
pub fn line_and_aabb(line: Line2D, aabb: Aabb) -> (r: bool)
    ensures
        r == line_aabb_hit(line, aabb),
{
    line_aabb(line, aabb)
}

/// Whether a segment meets an axis-aligned box (alias sharing the same
/// contract).
pub fn is_line_2d_intersecting_aabb(line: Line2D, aabb: Aabb) -> (r: bool)
    ensures
        r == line_aabb_hit(line, aabb),
{
    line_aabb(line, aabb)
}

/// Whether a segment meets an oriented box (alias sharing the same
/// contract).
pub fn line_and_obb(line: Line2D, obb: Box2D) -> (r: bool)
    ensures
        r == line_box2d_hit(line, obb),
{
    line_box2d(line, obb)
}

/// Whether a segment meets an oriented box (alias sharing the same
/// contract).
pub fn is_line_2d_intersecting_obb(line: Line2D, obb: Box2D) -> (r: bool)
    ensures
        r == line_box2d_hit(line, obb),
{
    line_box2d(line, obb)
}

/// Cast a ray against an oriented box (alias sharing the same contract).
pub fn raycast_obb(ray: Ray2D, obb: Box2D) -> (r: Option<RaycastResult2D>)
    ensures
        r == raycast_box2d_spec(ray, obb),
{
    raycast_box2d(ray, obb)
}

/// Cast a ray against any boolean-test collider.
pub fn raycast(ray: Ray2D, collider: crate::collider::Collider2D) -> (r: Option<RaycastResult2D>)
    ensures
        r == (match collider {
            crate::collider::Collider2D::Circle(c) => raycast_circle_spec(ray, c),
            crate::collider::Collider2D::Aabb(a) => raycast_aabb_spec(ray, a),
            crate::collider::Collider2D::Obb(b) => raycast_box2d_spec(ray, b),
        }),
{
    match collider {
        crate::collider::Collider2D::Circle(circle) => raycast_circle(ray, circle),
        crate::collider::Collider2D::Aabb(aabb) => raycast_aabb(ray, aabb),
        crate::collider::Collider2D::Obb(obb) => raycast_box2d(ray, obb),
    }
}

} // verus!
