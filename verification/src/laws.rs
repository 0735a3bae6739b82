//! Library-wide laws, stated and proved over the spec-level models that the
//! executable functions' contracts use.

use vstd::prelude::*;

use crate::algo::{box2d_circle_manifold, circle_circle_manifold, circles_overlap};
use crate::collider::{shape_manifold, shapes_overlap, ColliderShape};
use crate::fx::{iabs, is_sqrt_floor, lemma_sqrt_floor_spec, sqrt_floor, sp_neg, tdiv, SCALE};
use crate::vec2::{raw_norm2, rot_apply, rot_c, rot_s, vneg, vnorm, vsub, Vec2};

verus! {

/// A coordinate bound comfortably below the saturation range: shapes whose
/// raw coordinates stay within it never saturate a single subtraction.
pub open spec fn coord_bounded(v: Vec2) -> bool {
    &&& iabs(v.x as int) <= 0x2000_0000_0000_0000
    &&& iabs(v.y as int) <= 0x2000_0000_0000_0000
}

/// No raw component exceeds the Euclidean norm of the pair.
proof fn lemma_sqrt_component_le(x: int, y: int)
    ensures
        iabs(x) <= sqrt_floor(x * x + y * y),
        iabs(y) <= sqrt_floor(x * x + y * y),
{
    let n = x * x + y * y;
    assert(x * x >= 0 && y * y >= 0) by (nonlinear_arith);
    lemma_sqrt_floor_spec(n);
    let s = sqrt_floor(n);
    if iabs(x) > s {
        assert(iabs(x) * iabs(x) >= (s + 1) * (s + 1)) by (nonlinear_arith)
            requires
                iabs(x) >= s + 1 > 0,
        ;
        assert(iabs(x) * iabs(x) == x * x) by (nonlinear_arith);
        assert(false);
    }
    if iabs(y) > s {
        assert(iabs(y) * iabs(y) >= (s + 1) * (s + 1)) by (nonlinear_arith)
            requires
                iabs(y) >= s + 1 > 0,
        ;
        assert(iabs(y) * iabs(y) == y * y) by (nonlinear_arith);
        assert(false);
    }
}

/// The truncating normalization keeps each component within one unit.
proof fn lemma_vnorm_bound(v: Vec2)
    ensures
        iabs(vnorm(v).x as int) <= SCALE as int,
        iabs(vnorm(v).y as int) <= SCALE as int,
{
    if raw_norm2(v) != 0 {
        assert((v.x as int) * (v.x as int) >= 0 && (v.y as int) * (v.y as int) >= 0)
            by (nonlinear_arith);
        lemma_sqrt_component_le(v.x as int, v.y as int);
        lemma_sqrt_floor_spec(raw_norm2(v));
        let s = sqrt_floor(raw_norm2(v));
        assert(raw_norm2(v) >= 1) by (nonlinear_arith)
            requires
                raw_norm2(v) == (v.x as int) * (v.x as int) + (v.y as int) * (v.y as int),
                raw_norm2(v) != 0,
        ;
        assert(s >= 1);
        assert(iabs((v.x as int) * (SCALE as int)) / s <= SCALE as int) by (nonlinear_arith)
            requires
                s >= 1,
                iabs(v.x as int) <= s,
                iabs((v.x as int) * (SCALE as int)) == iabs(v.x as int) * (SCALE as int),
        ;
        assert(iabs((v.x as int) * (SCALE as int)) == iabs(v.x as int) * (SCALE as int))
            by (nonlinear_arith);
        assert(iabs((v.y as int) * (SCALE as int)) == iabs(v.y as int) * (SCALE as int))
            by (nonlinear_arith);
        assert(iabs((v.y as int) * (SCALE as int)) / s <= SCALE as int) by (nonlinear_arith)
            requires
                s >= 1,
                iabs(v.y as int) <= s,
                iabs((v.y as int) * (SCALE as int)) == iabs(v.y as int) * (SCALE as int),
        ;
    }
}

/// Normalizing a negated vector negates the normalization, as long as the
/// negation itself is exact.
proof fn lemma_vnorm_neg(v: Vec2)
    requires
        iabs(v.x as int) < 0x8000_0000_0000_0000,
        iabs(v.y as int) < 0x8000_0000_0000_0000,
    ensures
        vnorm(vneg(v)) == vneg(vnorm(v)),
{
    let n = vneg(v);
    assert(n.x as int == -(v.x as int) && n.y as int == -(v.y as int));
    assert(raw_norm2(n) == raw_norm2(v)) by (nonlinear_arith)
        requires
            n.x as int == -(v.x as int),
            n.y as int == -(v.y as int),
            raw_norm2(n) == (n.x as int) * (n.x as int) + (n.y as int) * (n.y as int),
            raw_norm2(v) == (v.x as int) * (v.x as int) + (v.y as int) * (v.y as int),
    ;
    if raw_norm2(v) == 0 {
        assert(vnorm(n) == vneg(vnorm(v)));
    } else {
        assert((v.x as int) * (v.x as int) >= 0 && (v.y as int) * (v.y as int) >= 0)
            by (nonlinear_arith);
        let s = sqrt_floor(raw_norm2(v));
        lemma_sqrt_floor_spec(raw_norm2(v));
        assert(s >= 1) by (nonlinear_arith)
            requires
                is_sqrt_floor(raw_norm2(v), s),
                raw_norm2(v) >= 1,
        ;
        assert(raw_norm2(v) >= 1) by (nonlinear_arith)
            requires
                raw_norm2(v) == (v.x as int) * (v.x as int) + (v.y as int) * (v.y as int),
                raw_norm2(v) != 0,
        ;
        assert((n.x as int) * (SCALE as int) == -((v.x as int) * (SCALE as int)))
            by (nonlinear_arith)
            requires
                n.x as int == -(v.x as int),
        ;
        assert((n.y as int) * (SCALE as int) == -((v.y as int) * (SCALE as int)))
            by (nonlinear_arith)
            requires
                n.y as int == -(v.y as int),
        ;
        crate::fx::lemma_tdiv_neg((v.x as int) * (SCALE as int), s);
        crate::fx::lemma_tdiv_neg((v.y as int) * (SCALE as int), s);
        lemma_vnorm_bound(v);
        lemma_vnorm_bound(n);
    }
}

/// A rotation applied to a vector with components within one unit yields
/// components within two units.
proof fn lemma_rot_bound(r: crate::vec2::Rot2, v: Vec2)
    requires
        iabs(v.x as int) <= SCALE as int,
        iabs(v.y as int) <= SCALE as int,
    ensures
        iabs(rot_apply(r, v).x as int) <= 2 * SCALE as int,
        iabs(rot_apply(r, v).y as int) <= 2 * SCALE as int,
{
    let c = rot_c(r);
    let s = rot_s(r);
    assert(iabs(c) <= SCALE as int && iabs(s) <= SCALE as int);
    assert(iabs(c * (v.x as int) - s * (v.y as int)) <= 2 * (SCALE as int) * (SCALE as int))
        by (nonlinear_arith)
        requires
            iabs(c) <= SCALE as int,
            iabs(s) <= SCALE as int,
            iabs(v.x as int) <= SCALE as int,
            iabs(v.y as int) <= SCALE as int,
    ;
    assert(iabs(s * (v.x as int) + c * (v.y as int)) <= 2 * (SCALE as int) * (SCALE as int))
        by (nonlinear_arith)
        requires
            iabs(c) <= SCALE as int,
            iabs(s) <= SCALE as int,
            iabs(v.x as int) <= SCALE as int,
            iabs(v.y as int) <= SCALE as int,
    ;
    assert(iabs(tdiv(c * (v.x as int) - s * (v.y as int), SCALE as int)) <= 2 * SCALE as int)
        by (nonlinear_arith)
        requires
            iabs(c * (v.x as int) - s * (v.y as int)) <= 2 * (SCALE as int) * (SCALE as int),
            tdiv(c * (v.x as int) - s * (v.y as int), SCALE as int) == (if (c * (v.x as int) - s
                * (v.y as int) >= 0) == (SCALE as int >= 0) {
                iabs(c * (v.x as int) - s * (v.y as int)) / iabs(SCALE as int)
            } else {
                -(iabs(c * (v.x as int) - s * (v.y as int)) / iabs(SCALE as int))
            }),
    ;
    assert(iabs(tdiv(s * (v.x as int) + c * (v.y as int), SCALE as int)) <= 2 * SCALE as int)
        by (nonlinear_arith)
        requires
            iabs(s * (v.x as int) + c * (v.y as int)) <= 2 * (SCALE as int) * (SCALE as int),
            tdiv(s * (v.x as int) + c * (v.y as int), SCALE as int) == (if (s * (v.x as int) + c
                * (v.y as int) >= 0) == (SCALE as int >= 0) {
                iabs(s * (v.x as int) + c * (v.y as int)) / iabs(SCALE as int)
            } else {
                -(iabs(s * (v.x as int) + c * (v.y as int)) / iabs(SCALE as int))
            }),
    ;
}

/// The raw coordinates a shape exposes to the narrow phase.
pub open spec fn shape_bounded(s: ColliderShape) -> bool {
    match s {
        ColliderShape::Circle(c) => coord_bounded(c.center),
        ColliderShape::Box2D(b) => coord_bounded(b.min) && coord_bounded(b.max),
    }
}

/// Swapping the operand order of the narrow phase negates the manifold
/// normal, for every circle-circle and mixed circle-box pair whose
/// coordinates stay within the saturation-free range. (For box-box pairs
/// the separating-axis normal is chosen independently of the order, so no
/// such negation holds.)
#[verifier::rlimit(80)]
pub proof fn lemma_manifold_symmetry(s1: ColliderShape, s2: ColliderShape)
    requires
        shape_bounded(s1),
        shape_bounded(s2),
        !(s1 is Box2D && s2 is Box2D),
    ensures
        shapes_overlap(s1, s2) == shapes_overlap(s2, s1),
        shape_manifold(s1, s2) is Some <==> shape_manifold(s2, s1) is Some,
        shape_manifold(s1, s2) is Some ==> shape_manifold(s1, s2)->0.normal == vneg(
            shape_manifold(s2, s1)->0.normal,
        ),
{
    match (s1, s2) {
        (ColliderShape::Circle(c1), ColliderShape::Circle(c2)) => {
            let d12 = vsub(c2.center, c1.center);
            let d21 = vsub(c1.center, c2.center);
            assert(d21 == vneg(d12));
            assert(raw_norm2(d21) == raw_norm2(d12)) by (nonlinear_arith)
                requires
                    d21.x as int == -(d12.x as int),
                    d21.y as int == -(d12.y as int),
                    raw_norm2(d21) == (d21.x as int) * (d21.x as int) + (d21.y as int) * (d21.y
                        as int),
                    raw_norm2(d12) == (d12.x as int) * (d12.x as int) + (d12.y as int) * (d12.y
                        as int),
            ;
            assert(circles_overlap(c1, c2) == circles_overlap(c2, c1));
            if circles_overlap(c1, c2) {
                lemma_vnorm_neg(d12);
                lemma_vnorm_bound(d12);
                lemma_vnorm_bound(d21);
                assert(vnorm(d21) == vneg(vnorm(d12)));
                assert(vnorm(d12) == vneg(vnorm(d21)));
            }
        },
        (ColliderShape::Circle(c), ColliderShape::Box2D(b)) => {
            match box2d_circle_manifold(b, c) {
                None => {},
                Some(m) => {
                    lemma_box_circle_normal_bound(b, c);
                    assert(vneg(vneg(m.normal)) == m.normal);
                },
            }
        },
        (ColliderShape::Box2D(b), ColliderShape::Circle(c)) => {
            match box2d_circle_manifold(b, c) {
                None => {},
                Some(m) => {
                    lemma_box_circle_normal_bound(b, c);
                    assert(vneg(vneg(m.normal)) == m.normal);
                },
            }
        },
        _ => {},
    }
}

/// The world-space normal of an oriented-box-versus-circle manifold stays
/// within two units per component, so negating it twice gives it back.
proof fn lemma_box_circle_normal_bound(b: crate::geometry::Box2D, c: crate::geometry::Circle)
    requires
        box2d_circle_manifold(b, c) is Some,
    ensures
        iabs(box2d_circle_manifold(b, c)->0.normal.x as int) <= 2 * SCALE as int,
        iabs(box2d_circle_manifold(b, c)->0.normal.y as int) <= 2 * SCALE as int,
{
    let bc = crate::geometry::rect_center(b.min, b.max);
    let inv = crate::vec2::Rot2 { c: b.rotation.c, s: sp_neg(b.rotation.s as int) as i64 };
    let local_center = crate::vec2::rot_around(inv, c.center, bc);
    let aabb = crate::geometry::Aabb { min: b.min, max: b.max };
    let lc = crate::geometry::Circle { center: local_center, radius: c.radius };
    let delta = vsub(lc.center, bc);
    let half = crate::geometry::rect_half_size(aabb.min, aabb.max);
    let local_point = vsub(delta, crate::vec2::vclamp(delta, vneg(half), half));
    lemma_vnorm_bound(local_point);
    lemma_rot_bound(b.rotation, vnorm(local_point));
}


/// Scaling by a zero factor yields zero.
proof fn lemma_sp_mul_zero(x: int)
    ensures
        crate::fx::sp_mul(x, 0) == 0,
        crate::fx::sp_mul(0, x) == 0,
{
    assert(x * 0 == 0) by (nonlinear_arith);
    assert(0 * x == 0) by (nonlinear_arith);
    assert(iabs(0int) / iabs(SCALE as int) == 0);
}

/// Dividing zero by anything nonzero yields zero.
proof fn lemma_sp_div_zero(b: int)
    ensures
        crate::fx::sp_div(0, b) == 0,
{
    if b != 0 {
        assert(0 * SCALE == 0) by (nonlinear_arith);
        assert(iabs(0int) / iabs(b) == 0) by (nonlinear_arith)
            requires
                b != 0,
        ;
    }
}

/// A zero impulse factor leaves a velocity unchanged.
proof fn lemma_vscale_zero(n: Vec2, v: Vec2)
    ensures
        crate::vec2::vscale(n, 0) == (Vec2 { x: 0i64, y: 0i64 }),
        vsub(v, Vec2 { x: 0i64, y: 0i64 }) == v,
        crate::vec2::vadd(v, Vec2 { x: 0i64, y: 0i64 }) == v,
{
    lemma_sp_mul_zero(n.x as int);
    lemma_sp_mul_zero(n.y as int);
}

/// Two bodies at rest never acquire approaching velocities from one
/// resolution pass: with zero initial velocities the relative velocity
/// along the contact normal is zero, so the impulse is zero and the
/// separating velocity component stays non-negative.
pub proof fn lemma_resting_impulse_separates(
    c1: crate::geometry::Circle,
    c2: crate::geometry::Circle,
    b1: crate::body::RigidBody,
    b2: crate::body::RigidBody,
)
    requires
        c1.center.y == c2.center.y,
        circles_overlap(c1, c2),
        b1.linear_velocity == (Vec2 { x: 0i64, y: 0i64 }),
        b2.linear_velocity == (Vec2 { x: 0i64, y: 0i64 }),
        b1.cor == SCALE,
        b2.cor == SCALE,
    ensures
        circle_circle_manifold(c1, c2) is Some,
        ({
            let m = circle_circle_manifold(c1, c2)->0;
            let pair = crate::pipeline::impulse_pair(b1, b2, m);
            crate::vec2::vdot(
                vsub(pair.1.linear_velocity, pair.0.linear_velocity),
                m.normal,
            ) >= 0
        }),
{
    let m = circle_circle_manifold(c1, c2)->0;
    let rel = vsub(b2.linear_velocity, b1.linear_velocity);
    assert(rel == (Vec2 { x: 0i64, y: 0i64 }));
    lemma_sp_mul_zero(m.normal.x as int);
    lemma_sp_mul_zero(m.normal.y as int);
    assert(crate::vec2::vdot(rel, m.normal) == 0);
    let pair = crate::pipeline::impulse_pair(b1, b2, m);
    let inv_sum = crate::fx::sp_add(b1.inv_mass as int, b2.inv_mass as int);
    if inv_sum != 0 {
        let e = crate::fx::sp_min(b1.cor as int, b2.cor as int);
        lemma_sp_mul_zero(crate::fx::sp_add(SCALE as int, e));
        lemma_sp_div_zero(inv_sum);
        lemma_sp_mul_zero(b1.inv_mass as int);
        lemma_sp_mul_zero(b2.inv_mass as int);
        lemma_vscale_zero(m.normal, b1.linear_velocity);
        lemma_vscale_zero(m.normal, b2.linear_velocity);
    }
    assert(pair.0.linear_velocity == b1.linear_velocity);
    assert(pair.1.linear_velocity == b2.linear_velocity);
}

/// Everything about a body except its force accumulator.
pub open spec fn motion_eq(a: crate::body::RigidBody, b: crate::body::RigidBody) -> bool {
    b == (crate::body::RigidBody { force_accumulator: b.force_accumulator, ..a })
}

/// The two slot sequences agree on occupancy, generations, and every body
/// field except the force accumulator.
pub open spec fn same_motion(
    s1: Seq<crate::arena::Slot<crate::body::RigidBody>>,
    s2: Seq<crate::arena::Slot<crate::body::RigidBody>>,
) -> bool {
    &&& s1.len() == s2.len()
    &&& forall|i: int|
        0 <= i < s1.len() ==> #[trigger] s2[i].generation == s1[i].generation && (s1[i].value
            is Some <==> s2[i].value is Some) && (s1[i].value is Some ==> motion_eq(
            s1[i].value->0,
            s2[i].value->0,
        ))
}

proof fn lemma_same_motion_trans(
    s1: Seq<crate::arena::Slot<crate::body::RigidBody>>,
    s2: Seq<crate::arena::Slot<crate::body::RigidBody>>,
    s3: Seq<crate::arena::Slot<crate::body::RigidBody>>,
)
    requires
        same_motion(s1, s2),
        same_motion(s2, s3),
    ensures
        same_motion(s1, s3),
{
}

/// The force registry changes nothing about a body except its accumulator.
proof fn lemma_run_registrations_motion(
    hs: Seq<crate::arena::Handle>,
    regs: Seq<crate::arena::Slot<crate::force::ForceRegistration>>,
    gens: Seq<crate::arena::Slot<crate::force::ForceGenerator>>,
    bodies: Seq<crate::arena::Slot<crate::body::RigidBody>>,
)
    ensures
        same_motion(bodies, crate::force::run_registrations(hs, regs, gens, bodies)),
    decreases hs.len(),
{
    if hs.len() == 0 {
    } else {
        let next = crate::force::apply_registration(regs, gens, bodies, hs[0]);
        assert(same_motion(bodies, next));
        lemma_run_registrations_motion(hs.drop_first(), regs, gens, next);
        lemma_same_motion_trans(
            bodies,
            next,
            crate::force::run_registrations(hs.drop_first(), regs, gens, next),
        );
    }
}

/// The gravity pass changes nothing about a body except its accumulator.
proof fn lemma_gravity_pass_motion(
    hs: Seq<crate::arena::Handle>,
    bodies: Seq<crate::arena::Slot<crate::body::RigidBody>>,
    gravity: Vec2,
)
    ensures
        same_motion(bodies, crate::pipeline::gravity_pass(hs, bodies, gravity)),
    decreases hs.len(),
{
    if hs.len() == 0 {
    } else {
        let next = crate::pipeline::apply_gravity(bodies, hs[0], gravity);
        assert(same_motion(bodies, next));
        lemma_gravity_pass_motion(hs.drop_first(), next, gravity);
        lemma_same_motion_trans(
            bodies,
            next,
            crate::pipeline::gravity_pass(hs.drop_first(), next, gravity),
        );
    }
}

/// Everything about a body except its linear velocity.
pub open spec fn placement_eq(a: crate::body::RigidBody, b: crate::body::RigidBody) -> bool {
    b == (crate::body::RigidBody { linear_velocity: b.linear_velocity, ..a })
}

/// The two slot sequences agree on occupancy, generations, and every body
/// field except the linear velocity; and every stored immovable body
/// (inverse mass zero) keeps its velocity too.
pub open spec fn resolution_frame(
    s1: Seq<crate::arena::Slot<crate::body::RigidBody>>,
    s2: Seq<crate::arena::Slot<crate::body::RigidBody>>,
) -> bool {
    &&& s1.len() == s2.len()
    &&& forall|i: int|
        0 <= i < s1.len() ==> #[trigger] s2[i].generation == s1[i].generation && (s1[i].value
            is Some <==> s2[i].value is Some) && (s1[i].value is Some ==> placement_eq(
            s1[i].value->0,
            s2[i].value->0,
        ) && (s1[i].value->0.inv_mass == 0 ==> s2[i].value->0.linear_velocity
            == s1[i].value->0.linear_velocity))
}

proof fn lemma_resolution_frame_trans(
    s1: Seq<crate::arena::Slot<crate::body::RigidBody>>,
    s2: Seq<crate::arena::Slot<crate::body::RigidBody>>,
    s3: Seq<crate::arena::Slot<crate::body::RigidBody>>,
)
    requires
        resolution_frame(s1, s2),
        resolution_frame(s2, s3),
    ensures
        resolution_frame(s1, s3),
{
}

/// An impulse never moves an immovable body: its velocity change is scaled
/// by its inverse mass, which is zero.
proof fn lemma_impulse_frozen(
    b1: crate::body::RigidBody,
    b2: crate::body::RigidBody,
    m: crate::algo::CollisionManifold,
)
    ensures
        placement_eq(b1, crate::pipeline::impulse_pair(b1, b2, m).0),
        placement_eq(b2, crate::pipeline::impulse_pair(b1, b2, m).1),
        b1.inv_mass == 0 ==> crate::pipeline::impulse_pair(b1, b2, m).0.linear_velocity
            == b1.linear_velocity,
        b2.inv_mass == 0 ==> crate::pipeline::impulse_pair(b1, b2, m).1.linear_velocity
            == b2.linear_velocity,
{
    let pair = crate::pipeline::impulse_pair(b1, b2, m);
    let inv_sum = crate::fx::sp_add(b1.inv_mass as int, b2.inv_mass as int);
    let rel = vsub(b2.linear_velocity, b1.linear_velocity);
    let d = crate::vec2::vdot(rel, m.normal);
    if inv_sum != 0 && d <= 0 {
        let e = crate::fx::sp_min(b1.cor as int, b2.cor as int);
        let impulse_vel = crate::fx::sp_neg(crate::fx::sp_mul(crate::fx::sp_add(SCALE as int, e), d));
        let impulse = crate::fx::sp_div(impulse_vel, inv_sum);
        if b1.inv_mass == 0 {
            lemma_sp_mul_zero(impulse);
            lemma_vscale_zero(m.normal, b1.linear_velocity);
            assert(pair.0.linear_velocity == b1.linear_velocity);
        }
        if b2.inv_mass == 0 {
            lemma_sp_mul_zero(impulse);
            lemma_vscale_zero(m.normal, b2.linear_velocity);
            assert(pair.1.linear_velocity == b2.linear_velocity);
        }
    }
}

/// One resolved collision record respects the resolution frame.
proof fn lemma_resolve_collision_frame(
    bodies: Seq<crate::arena::Slot<crate::body::RigidBody>>,
    col: crate::collider::Collision,
)
    ensures
        resolution_frame(bodies, crate::pipeline::resolve_collision(bodies, col)),
{
    let h1 = col.body_handle1.0;
    let h2 = col.body_handle2.0;
    if crate::arena::slot_valid(bodies, h1) && crate::arena::slot_valid(bodies, h2) && h1.index
        != h2.index {
        lemma_impulse_frozen(
            crate::arena::slot_at(bodies, h1),
            crate::arena::slot_at(bodies, h2),
            col.manifold,
        );
    }
}

/// One resolution pass respects the resolution frame.
proof fn lemma_resolve_list_frame(
    bodies: Seq<crate::arena::Slot<crate::body::RigidBody>>,
    cols: Seq<crate::collider::Collision>,
)
    ensures
        resolution_frame(bodies, crate::pipeline::resolve_list(bodies, cols)),
    decreases cols.len(),
{
    if cols.len() == 0 {
    } else {
        let next = crate::pipeline::resolve_collision(bodies, cols[0]);
        lemma_resolve_collision_frame(bodies, cols[0]);
        lemma_resolve_list_frame(next, cols.drop_first());
        lemma_resolution_frame_trans(
            bodies,
            next,
            crate::pipeline::resolve_list(next, cols.drop_first()),
        );
    }
}

/// Any number of resolution passes respects the resolution frame.
proof fn lemma_resolve_rounds_frame(
    bodies: Seq<crate::arena::Slot<crate::body::RigidBody>>,
    cols: Seq<crate::collider::Collision>,
    k: nat,
)
    ensures
        resolution_frame(bodies, crate::pipeline::resolve_rounds(bodies, cols, k)),
    decreases k,
{
    if k == 0 {
    } else {
        let next = crate::pipeline::resolve_list(bodies, cols);
        lemma_resolve_list_frame(bodies, cols);
        lemma_resolve_rounds_frame(next, cols, (k - 1) as nat);
        lemma_resolution_frame_trans(
            bodies,
            next,
            crate::pipeline::resolve_rounds(next, cols, (k - 1) as nat),
        );
    }
}

/// Integration leaves every stored infinite-mass body's slot untouched.
proof fn lemma_integrate_pass_frozen(
    hs: Seq<crate::arena::Handle>,
    bodies: Seq<crate::arena::Slot<crate::body::RigidBody>>,
    colliders: Seq<crate::arena::Slot<crate::collider::Collider>>,
    dt: int,
)
    ensures
        ({
            let out = crate::pipeline::integrate_pass(hs, bodies, colliders, dt);
            &&& out.0.len() == bodies.len()
            &&& forall|i: int|
                0 <= i < bodies.len() && bodies[i].value is Some && bodies[i].value->0.mass == 0
                    ==> #[trigger] out.0[i] == bodies[i]
        }),
    decreases hs.len(),
{
    if hs.len() == 0 {
    } else {
        let one = crate::pipeline::integrate_one(bodies, colliders, hs[0], dt);
        assert(one.0.len() == bodies.len());
        assert forall|i: int|
            0 <= i < bodies.len() && bodies[i].value is Some && bodies[i].value->0.mass == 0
                implies #[trigger] one.0[i] == bodies[i] by {
            if crate::arena::slot_valid(bodies, hs[0]) && hs[0].index == i {
                assert(crate::body::integrated(crate::arena::slot_at(bodies, hs[0]), dt)
                    == crate::arena::slot_at(bodies, hs[0]));
            }
        }
        lemma_integrate_pass_frozen(hs.drop_first(), one.0, one.1, dt);
    }
}

/// An immovable body (mass zero, hence inverse mass zero) keeps its
/// position and velocity through an entire step, whatever forces,
/// collisions and impulses the step processes.
pub proof fn lemma_infinite_mass_invariant(
    dt: int,
    gravity: Vec2,
    bodies: Seq<crate::arena::Slot<crate::body::RigidBody>>,
    colliders: Seq<crate::arena::Slot<crate::collider::Collider>>,
    gens: Seq<crate::arena::Slot<crate::force::ForceGenerator>>,
    regs: Seq<crate::arena::Slot<crate::force::ForceRegistration>>,
    h: crate::arena::Handle,
)
    requires
        crate::arena::slot_valid(bodies, h),
        crate::arena::slot_at(bodies, h).mass == 0,
        crate::arena::slot_at(bodies, h).inv_mass == 0,
    ensures
        ({
            let out = crate::pipeline::step_result(dt, gravity, bodies, colliders, gens, regs);
            &&& crate::arena::slot_valid(out.0, h)
            &&& crate::arena::slot_at(out.0, h).position == crate::arena::slot_at(
                bodies,
                h,
            ).position
            &&& crate::arena::slot_at(out.0, h).linear_velocity == crate::arena::slot_at(
                bodies,
                h,
            ).linear_velocity
            &&& crate::arena::slot_at(out.0, h).mass == 0
        }),
{
    let b1 = crate::force::run_registrations(
        crate::arena::handles_upto(regs, regs.len() as int),
        regs,
        gens,
        bodies,
    );
    lemma_run_registrations_motion(
        crate::arena::handles_upto(regs, regs.len() as int),
        regs,
        gens,
        bodies,
    );
    let b2 = crate::pipeline::gravity_pass(
        crate::arena::handles_upto(b1, b1.len() as int),
        b1,
        gravity,
    );
    lemma_gravity_pass_motion(crate::arena::handles_upto(b1, b1.len() as int), b1, gravity);
    let cols = crate::pipeline::detect_pairs(
        crate::arena::handles_upto(b2, b2.len() as int),
        0,
        1,
        b2,
        colliders,
    );
    let b3 = crate::pipeline::resolve_rounds(b2, cols, crate::pipeline::IMPULSE_ITERATIONS as nat);
    lemma_resolve_rounds_frame(b2, cols, crate::pipeline::IMPULSE_ITERATIONS as nat);
    let i = h.index as int;
    assert(b1[i].generation == bodies[i].generation && b1[i].value is Some && motion_eq(
        bodies[i].value->0,
        b1[i].value->0,
    ));
    assert(b2[i].generation == b1[i].generation && b2[i].value is Some && motion_eq(
        b1[i].value->0,
        b2[i].value->0,
    ));
    assert(b3[i].generation == b2[i].generation && b3[i].value is Some && placement_eq(
        b2[i].value->0,
        b3[i].value->0,
    ));
    assert(b3[i].value->0.inv_mass == 0 && b3[i].value->0.linear_velocity == b2[i].value->0.linear_velocity);
    let hs4 = crate::arena::handles_upto(b3, b3.len() as int);
    lemma_integrate_pass_frozen(hs4, b3, colliders, dt);
    let out0 = crate::pipeline::integrate_pass(hs4, b3, colliders, dt).0;
    assert(out0[i] == b3[i]);
}

/// A pair of bodies whose collider shapes do not geometrically overlap is
/// never recorded by the detection phase.
pub proof fn lemma_non_overlapping_pair_skipped(
    bodies: Seq<crate::arena::Slot<crate::body::RigidBody>>,
    colliders: Seq<crate::arena::Slot<crate::collider::Collider>>,
    h1: crate::arena::Handle,
    h2: crate::arena::Handle,
)
    requires
        crate::arena::slot_valid(bodies, h1),
        crate::arena::slot_valid(bodies, h2),
        crate::arena::slot_at(bodies, h1).collider is Some,
        crate::arena::slot_at(bodies, h2).collider is Some,
        crate::arena::slot_valid(colliders, (crate::arena::slot_at(bodies, h1).collider->0).0),
        crate::arena::slot_valid(colliders, (crate::arena::slot_at(bodies, h2).collider->0).0),
        !shapes_overlap(
            crate::arena::slot_at(colliders, (crate::arena::slot_at(bodies, h1).collider->0).0).shape,
            crate::arena::slot_at(colliders, (crate::arena::slot_at(bodies, h2).collider->0).0).shape,
        ),
    ensures
        crate::pipeline::pair_collision(bodies, colliders, h1, h2) is None,
{
}

/// A body named by no recorded collision keeps its entire state through the
/// whole resolution phase, so non-colliding bodies' velocities are left
/// unchanged by it.
pub proof fn lemma_resolution_leaves_uninvolved(
    bodies: Seq<crate::arena::Slot<crate::body::RigidBody>>,
    cols: Seq<crate::collider::Collision>,
    k: nat,
    h: crate::arena::Handle,
)
    requires
        crate::arena::slot_valid(bodies, h),
        forall|i: int|
            0 <= i < cols.len() ==> (#[trigger] cols[i]).body_handle1.0.index != h.index
                && cols[i].body_handle2.0.index != h.index,
    ensures
        crate::arena::slot_valid(crate::pipeline::resolve_rounds(bodies, cols, k), h),
        crate::arena::slot_at(crate::pipeline::resolve_rounds(bodies, cols, k), h)
            == crate::arena::slot_at(bodies, h),
    decreases k,
{
    if k != 0 {
        lemma_resolve_list_uninvolved(bodies, cols, h);
        lemma_resolution_leaves_uninvolved(
            crate::pipeline::resolve_list(bodies, cols),
            cols,
            (k - 1) as nat,
            h,
        );
    }
}

proof fn lemma_resolve_list_uninvolved(
    bodies: Seq<crate::arena::Slot<crate::body::RigidBody>>,
    cols: Seq<crate::collider::Collision>,
    h: crate::arena::Handle,
)
    requires
        crate::arena::slot_valid(bodies, h),
        forall|i: int|
            0 <= i < cols.len() ==> (#[trigger] cols[i]).body_handle1.0.index != h.index
                && cols[i].body_handle2.0.index != h.index,
    ensures
        crate::arena::slot_valid(crate::pipeline::resolve_list(bodies, cols), h),
        crate::arena::slot_at(crate::pipeline::resolve_list(bodies, cols), h)
            == crate::arena::slot_at(bodies, h),
    decreases cols.len(),
{
    if cols.len() != 0 {
        let next = crate::pipeline::resolve_collision(bodies, cols[0]);
        assert(next.len() == bodies.len() && next[h.index as int] == bodies[h.index as int]);
        assert forall|i: int|
            0 <= i < cols.drop_first().len() implies (#[trigger] cols.drop_first()[i]).body_handle1.0.index
                != h.index && cols.drop_first()[i].body_handle2.0.index != h.index by {
            assert(cols.drop_first()[i] == cols[i + 1]);
        }
        lemma_resolve_list_uninvolved(next, cols.drop_first(), h);
    }
}

/// With no recorded collisions the whole resolution phase is the identity,
/// so a step over non-overlapping bodies leaves every velocity to the force
/// and integration phases alone.
pub proof fn lemma_resolve_rounds_empty(
    bodies: Seq<crate::arena::Slot<crate::body::RigidBody>>,
    k: nat,
)
    ensures
        crate::pipeline::resolve_rounds(bodies, Seq::<crate::collider::Collision>::empty(), k)
            == bodies,
    decreases k,
{
    if k != 0 {
        lemma_resolve_rounds_empty(bodies, (k - 1) as nat);
    }
}

/// The impulse magnitude of a head-on, fully elastic impact, before any
/// velocity is updated.
pub open spec fn head_on_j(b1: crate::body::RigidBody, b2: crate::body::RigidBody) -> int {
    tdiv(
        -(2 * ((b2.linear_velocity.x as int) - (b1.linear_velocity.x as int))) * (SCALE as int),
        (b1.inv_mass as int) + (b2.inv_mass as int),
    )
}

/// Exact truncating division: when the divisor divides the dividend the
/// quotient times the divisor gives the dividend back.
proof fn lemma_tdiv_exact(a: int, b: int)
    requires
        b > 0,
        a % b == 0,
    ensures
        tdiv(a, b) * b == a,
{
    vstd::arithmetic::div_mod::lemma_fundamental_div_mod(a, b);
    if a >= 0 {
        assert(tdiv(a, b) == a / b);
        assert((a / b) * b == b * (a / b)) by (nonlinear_arith);
    } else {
        vstd::arithmetic::div_mod::lemma_fundamental_div_mod(-a, b);
        let q = a / b;
        assert(a == b * q);
        assert(-a == q * (-b) + 0int) by (nonlinear_arith)
            requires
                a == b * q,
        ;
        assert(-a == (-q) * b + 0int) by (nonlinear_arith)
            requires
                a == b * q,
        ;
        vstd::arithmetic::div_mod::lemma_fundamental_div_mod_converse(-a, b, -q, 0);
        assert((-a) / b == -q);
        assert(tdiv(a, b) == -((-a) / b));
        assert(tdiv(a, b) * b == q * b);
        assert(q * b == a) by (nonlinear_arith)
            requires
                a == b * q,
        ;
    }
}

/// Multiplying by the scale and dividing by it again is the identity.
proof fn lemma_tdiv_scale_cancel(x: int)
    ensures
        tdiv(x * (SCALE as int), SCALE as int) == x,
        tdiv((SCALE as int) * x, SCALE as int) == x,
{
    assert(x * (SCALE as int) == (SCALE as int) * x) by (nonlinear_arith);
    assert((x * (SCALE as int)) % (SCALE as int) == 0) by (nonlinear_arith);
    lemma_tdiv_exact(x * (SCALE as int), SCALE as int);
    let t = tdiv(x * (SCALE as int), SCALE as int);
    assert(t * (SCALE as int) == x * (SCALE as int));
    assert(t == x) by (nonlinear_arith)
        requires
            t * (SCALE as int) == x * (SCALE as int),
    ;
}

/// For two finite-mass bodies hit head-on along the positive X axis with
/// fully elastic restitution, one impulse conserves momentum exactly,
/// provided the cached inverse masses are exact reciprocals and the impulse
/// arithmetic divides out without remainder.
#[verifier::rlimit(100)]
pub proof fn lemma_momentum_conserved(
    b1: crate::body::RigidBody,
    b2: crate::body::RigidBody,
    m: crate::algo::CollisionManifold,
)
    requires
        m.normal == (Vec2 { x: SCALE, y: 0i64 }),
        b1.linear_velocity.y == 0,
        b2.linear_velocity.y == 0,
        b1.mass >= 1,
        b2.mass >= 1,
        b1.inv_mass >= 1,
        b2.inv_mass >= 1,
        (b1.inv_mass as int) * (b1.mass as int) == (SCALE as int) * (SCALE as int),
        (b2.inv_mass as int) * (b2.mass as int) == (SCALE as int) * (SCALE as int),
        b1.cor == SCALE,
        b2.cor == SCALE,
        iabs(b1.linear_velocity.x as int) <= (SCALE as int) * (SCALE as int),
        iabs(b2.linear_velocity.x as int) <= (SCALE as int) * (SCALE as int),
        ((-(2 * ((b2.linear_velocity.x as int) - (b1.linear_velocity.x as int))) * (SCALE as int))
            % ((b1.inv_mass as int) + (b2.inv_mass as int))) == 0,
        ((b1.inv_mass as int) * head_on_j(b1, b2)) % (SCALE as int) == 0,
        ((b2.inv_mass as int) * head_on_j(b1, b2)) % (SCALE as int) == 0,
    ensures
        ({
            let pair = crate::pipeline::impulse_pair(b1, b2, m);
            (b1.mass as int) * (pair.0.linear_velocity.x as int) + (b2.mass as int) * (
            pair.1.linear_velocity.x as int) == (b1.mass as int) * (b1.linear_velocity.x as int) + (
            b2.mass as int) * (b2.linear_velocity.x as int)
        }),
{
    let s = SCALE as int;
    let v1 = b1.linear_velocity.x as int;
    let v2 = b2.linear_velocity.x as int;
    let inv1 = b1.inv_mass as int;
    let inv2 = b2.inv_mass as int;
    let m1 = b1.mass as int;
    let m2 = b2.mass as int;
    // the inverse masses stay small enough that nothing saturates
    assert(inv1 <= s * s) by (nonlinear_arith)
        requires
            inv1 * m1 == s * s,
            m1 >= 1,
            inv1 >= 1,
            s == 65536,
    ;
    assert(inv2 <= s * s) by (nonlinear_arith)
        requires
            inv2 * m2 == s * s,
            m2 >= 1,
            inv2 >= 1,
            s == 65536,
    ;
    let inv_sum = inv1 + inv2;
    assert(crate::fx::sp_add(inv1, inv2) == inv_sum);
    // the relative velocity along the normal is exact
    let relx = v2 - v1;
    let rel = vsub(b2.linear_velocity, b1.linear_velocity);
    assert(rel.x as int == relx && rel.y as int == 0);
    lemma_sp_mul_zero(0);
    lemma_tdiv_scale_cancel(relx);
    let d = crate::vec2::vdot(rel, m.normal);
    assert(crate::fx::sp_mul(relx, s) == relx);
    assert(d == relx);
    let pair = crate::pipeline::impulse_pair(b1, b2, m);
    if d > 0 {
        assert(pair.0.linear_velocity == b1.linear_velocity);
        assert(pair.1.linear_velocity == b2.linear_velocity);
    } else {
        // the restitution factor doubles the approach speed exactly
        assert(crate::fx::sp_min(b1.cor as int, b2.cor as int) == s);
        assert(crate::fx::sp_add(s, s) == 2 * s);
        assert((2 * s) * d == (2 * d) * s) by (nonlinear_arith);
        lemma_tdiv_scale_cancel(2 * d);
        assert(crate::fx::sp_mul(2 * s, d) == 2 * d);
        let iv = -(2 * d);
        assert(crate::fx::sp_neg(2 * d) == iv);
        // the impulse divides out exactly
        let j = head_on_j(b1, b2);
        crate::fx::lemma_tdiv_bound(iv * s, inv_sum);
        assert(iabs(iv * s) <= 4 * s * s * s) by (nonlinear_arith)
            requires
                iv == -(2 * (v2 - v1)),
                iabs(v1) <= s * s,
                iabs(v2) <= s * s,
                s == 65536,
        ;
        assert(crate::fx::sp_div(iv, inv_sum) == j) by {
            assert(tdiv(iv * s, inv_sum) == j);
            assert(iabs(j) <= iabs(iv * s));
            assert(iabs(iv * s) < 0x8000_0000_0000_0000) by (nonlinear_arith)
                requires
                    iabs(iv * s) <= 4 * s * s * s,
                    s == 65536,
            ;
        }
        lemma_tdiv_exact(iv * s, inv_sum);
        assert(j * inv_sum == iv * s);
        // each velocity change divides out exactly
        let t1 = tdiv(inv1 * j, s);
        let t2 = tdiv(inv2 * j, s);
        lemma_tdiv_exact(inv1 * j, s);
        lemma_tdiv_exact(inv2 * j, s);
        assert(t1 * s == inv1 * j);
        assert(t2 * s == inv2 * j);
        // bound the changes so no saturation occurs
        assert(iabs(j) * inv_sum == iabs(iv) * s) by (nonlinear_arith)
            requires
                j * inv_sum == iv * s,
                inv_sum > 0,
                s > 0,
        ;
        assert(iabs(inv1 * j) <= iabs(iv) * s) by (nonlinear_arith)
            requires
                iabs(j) * inv_sum == iabs(iv) * s,
                0 < inv1 <= inv_sum,
                iabs(j) >= 0,
        ;
        assert(iabs(inv2 * j) <= iabs(iv) * s) by (nonlinear_arith)
            requires
                iabs(j) * inv_sum == iabs(iv) * s,
                0 < inv2 <= inv_sum,
                iabs(j) >= 0,
        ;
        assert(iabs(t1) * s <= iabs(iv) * s && iabs(t2) * s <= iabs(iv) * s) by (nonlinear_arith)
            requires
                t1 * s == inv1 * j,
                t2 * s == inv2 * j,
                iabs(inv1 * j) <= iabs(iv) * s,
                iabs(inv2 * j) <= iabs(iv) * s,
                s > 0,
        ;
        assert(iabs(t1) <= iabs(iv) && iabs(t2) <= iabs(iv)) by (nonlinear_arith)
            requires
                iabs(t1) * s <= iabs(iv) * s,
                iabs(t2) * s <= iabs(iv) * s,
                s > 0,
        ;
        assert(crate::fx::sp_mul(inv1, j) == t1);
        assert(crate::fx::sp_mul(inv2, j) == t2);
        // the scale-by-normal step is exact on the X axis and zero on Y
        lemma_tdiv_scale_cancel(t1);
        lemma_tdiv_scale_cancel(t2);
        assert(s * t1 == t1 * s && s * t2 == t2 * s) by (nonlinear_arith);
        assert(crate::fx::sp_mul(s, t1) == t1);
        assert(crate::fx::sp_mul(s, t2) == t2);
        lemma_sp_mul_zero(t1);
        lemma_sp_mul_zero(t2);
        assert(pair.0.linear_velocity.x as int == v1 - t1);
        assert(pair.1.linear_velocity.x as int == v2 + t2);
        // momentum transfer cancels: each side carries the same scaled impulse
        assert(m1 * t1 * s == s * s * j) by (nonlinear_arith)
            requires
                t1 * s == inv1 * j,
                inv1 * m1 == s * s,
        ;
        assert(m2 * t2 * s == s * s * j) by (nonlinear_arith)
            requires
                t2 * s == inv2 * j,
                inv2 * m2 == s * s,
        ;
        assert(m1 * t1 == m2 * t2) by (nonlinear_arith)
            requires
                m1 * t1 * s == s * s * j,
                m2 * t2 * s == s * s * j,
                s > 0,
        ;
        assert(m1 * (v1 - t1) + m2 * (v2 + t2) == m1 * v1 + m2 * v2) by (nonlinear_arith)
            requires
                m1 * t1 == m2 * t2,
        ;
    }
}

} // verus!
