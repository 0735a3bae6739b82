//! The per-frame physics driver.
//!
//! One fixed step runs, in order: the force registry, the uniform gravity
//! force, all-pairs collision detection, a fixed number of impulse
//! resolution passes, and semi-implicit Euler integration with collider
//! position sync. Every phase's effect is pinned to a spec-level fold, and
//! [`PhysicsPipeline::fixed_step`] composes them.

use vstd::prelude::*;

use crate::arena::{handles_upto, slot_at, slot_valid, Handle, Slot};
use crate::body::{integrated, RigidBody, RigidBodyHandle};
use crate::collider::{shape_manifold, Collider, Collision};
use crate::fx::{fadd, fdiv, fmin, fmul, fneg, sp_add, sp_div, sp_min, sp_mul, sp_neg, SCALE};
use crate::force::{run_registrations, ForceGeneratorSet, ForceRegistry};
use crate::sets::{colliders_with_position, ColliderSet, RigidBodySet};
use crate::vec2::{vadd, vdot, vscale, vsub, Vec2};

verus! {

/// Number of impulse resolution passes per step.
pub const IMPULSE_ITERATIONS: u64 = 6;

/// The body slots after the uniform force `gravity` (an acceleration) has
/// been scaled by one body's mass and added to its accumulator.
pub open spec fn apply_gravity(bodies: Seq<Slot<RigidBody>>, h: Handle, gravity: Vec2) -> Seq<
    Slot<RigidBody>,
> {
    if slot_valid(bodies, h) {
        let b = slot_at(bodies, h);
        bodies.update(
            h.index as int,
            Slot {
                generation: h.generation,
                value: Some(
                    RigidBody {
                        force_accumulator: vadd(
                            b.force_accumulator,
                            vscale(gravity, b.mass as int),
                        ),
                        ..b
                    },
                ),
            },
        )
    } else {
        bodies
    }
}

/// The body slots after every body named by `hs` has received the gravity
/// force, in order.
pub open spec fn gravity_pass(hs: Seq<Handle>, bodies: Seq<Slot<RigidBody>>, gravity: Vec2) -> Seq<
    Slot<RigidBody>,
>
    decreases hs.len(),
{
    if hs.len() == 0 {
        bodies
    } else {
        gravity_pass(hs.drop_first(), apply_gravity(bodies, hs[0], gravity), gravity)
    }
}

/// The collision record of one body pair, if any: skipped when either body
/// is missing, when both are infinite-mass, or when either lacks a stored
/// collider; otherwise the shapes' manifold decides.
pub open spec fn pair_collision(
    bodies: Seq<Slot<RigidBody>>,
    colliders: Seq<Slot<Collider>>,
    h1: Handle,
    h2: Handle,
) -> Option<Collision> {
    if slot_valid(bodies, h1) && slot_valid(bodies, h2) {
        let b1 = slot_at(bodies, h1);
        let b2 = slot_at(bodies, h2);
        if b1.mass == 0 && b2.mass == 0 {
            None
        } else if b1.collider is Some && b2.collider is Some && slot_valid(
            colliders,
            (b1.collider->0).0,
        ) && slot_valid(colliders, (b2.collider->0).0) {
            let c1 = slot_at(colliders, (b1.collider->0).0);
            let c2 = slot_at(colliders, (b2.collider->0).0);
            match shape_manifold(c1.shape, c2.shape) {
                None => None,
                Some(m) => Some(
                    Collision {
                        body_handle1: RigidBodyHandle(h1),
                        body_handle2: RigidBodyHandle(h2),
                        manifold: m,
                    },
                ),
            }
        } else {
            None
        }
    } else {
        None
    }
}

/// The collision records of all unordered body pairs, walked with the first
/// index outer and the second inner, starting from the pair `(i, j)`.
pub open spec fn detect_pairs(
    hs: Seq<Handle>,
    i: int,
    j: int,
    bodies: Seq<Slot<RigidBody>>,
    colliders: Seq<Slot<Collider>>,
) -> Seq<Collision>
    decreases hs.len() - i, hs.len() - j,
{
    if i < 0 || j < i || i >= hs.len() {
        Seq::empty()
    } else if j >= hs.len() {
        detect_pairs(hs, i + 1, i + 2, bodies, colliders)
    } else {
        let rest = detect_pairs(hs, i, j + 1, bodies, colliders);
        match pair_collision(bodies, colliders, hs[i], hs[j]) {
            None => rest,
            Some(c) => seq![c] + rest,
        }
    }
}

/// One impulse between two bodies: skipped when the inverse-mass sum is zero
/// or the bodies are already separating along the normal; otherwise the
/// restitution-scaled impulse changes both velocities in proportion to their
/// inverse masses.
pub open spec fn impulse_pair(b1: RigidBody, b2: RigidBody, m: crate::algo::CollisionManifold) -> (
    RigidBody,
    RigidBody,
) {
    let inv_sum = sp_add(b1.inv_mass as int, b2.inv_mass as int);
    if inv_sum == 0 {
        (b1, b2)
    } else {
        let rel = vsub(b2.linear_velocity, b1.linear_velocity);
        let d = vdot(rel, m.normal);
        if d > 0 {
            (b1, b2)
        } else {
            let e = sp_min(b1.cor as int, b2.cor as int);
            let impulse_vel = sp_neg(sp_mul(sp_add(SCALE as int, e), d));
            let impulse = sp_div(impulse_vel, inv_sum);
            (
                RigidBody {
                    linear_velocity: vsub(
                        b1.linear_velocity,
                        vscale(m.normal, sp_mul(b1.inv_mass as int, impulse)),
                    ),
                    ..b1
                },
                RigidBody {
                    linear_velocity: vadd(
                        b2.linear_velocity,
                        vscale(m.normal, sp_mul(b2.inv_mass as int, impulse)),
                    ),
                    ..b2
                },
            )
        }
    }
}

/// The body slots after one collision record has been resolved; a record
/// whose bodies are no longer both stored in distinct slots does nothing.
pub open spec fn resolve_collision(bodies: Seq<Slot<RigidBody>>, col: Collision) -> Seq<
    Slot<RigidBody>,
> {
    let h1 = col.body_handle1.0;
    let h2 = col.body_handle2.0;
    if slot_valid(bodies, h1) && slot_valid(bodies, h2) && h1.index != h2.index {
        let pair = impulse_pair(slot_at(bodies, h1), slot_at(bodies, h2), col.manifold);
        bodies.update(
            h1.index as int,
            Slot { generation: h1.generation, value: Some(pair.0) },
        ).update(h2.index as int, Slot { generation: h2.generation, value: Some(pair.1) })
    } else {
        bodies
    }
}

/// The body slots after one pass over the collision list, in order.
pub open spec fn resolve_list(bodies: Seq<Slot<RigidBody>>, cols: Seq<Collision>) -> Seq<
    Slot<RigidBody>,
>
    decreases cols.len(),
{
    if cols.len() == 0 {
        bodies
    } else {
        resolve_list(resolve_collision(bodies, cols[0]), cols.drop_first())
    }
}

/// The body slots after `k` passes over the collision list.
pub open spec fn resolve_rounds(bodies: Seq<Slot<RigidBody>>, cols: Seq<Collision>, k: nat) -> Seq<
    Slot<RigidBody>,
>
    decreases k,
{
    if k == 0 {
        bodies
    } else {
        resolve_rounds(resolve_list(bodies, cols), cols, (k - 1) as nat)
    }
}

/// One body integrated, with its collider (if stored) moved to the body's
/// new position.
pub open spec fn integrate_one(
    bodies: Seq<Slot<RigidBody>>,
    colliders: Seq<Slot<Collider>>,
    h: Handle,
    dt: int,
) -> (Seq<Slot<RigidBody>>, Seq<Slot<Collider>>) {
    if slot_valid(bodies, h) {
        let b = slot_at(bodies, h);
        let nb = integrated(b, dt);
        (
            bodies.update(h.index as int, Slot { generation: h.generation, value: Some(nb) }),
            if b.mass != 0 {
                match b.collider {
                    None => colliders,
                    Some(ch) => colliders_with_position(colliders, ch.0, nb.position),
                }
            } else {
                colliders
            },
        )
    } else {
        (bodies, colliders)
    }
}

/// Every body named by `hs` integrated in order, with collider sync.
pub open spec fn integrate_pass(
    hs: Seq<Handle>,
    bodies: Seq<Slot<RigidBody>>,
    colliders: Seq<Slot<Collider>>,
    dt: int,
) -> (Seq<Slot<RigidBody>>, Seq<Slot<Collider>>)
    decreases hs.len(),
{
    if hs.len() == 0 {
        (bodies, colliders)
    } else {
        let one = integrate_one(bodies, colliders, hs[0], dt);
        integrate_pass(hs.drop_first(), one.0, one.1, dt)
    }
}

/// The whole fixed step over the slot views: forces, gravity, detection,
/// resolution, integration. The first component is the final body slots, the
/// second the final collider slots, the third the recorded collisions.
pub open spec fn step_result(
    dt: int,
    gravity: Vec2,
    bodies: Seq<Slot<RigidBody>>,
    colliders: Seq<Slot<Collider>>,
    gens: Seq<Slot<crate::force::ForceGenerator>>,
    regs: Seq<Slot<crate::force::ForceRegistration>>,
) -> (Seq<Slot<RigidBody>>, Seq<Slot<Collider>>, Seq<Collision>) {
    let b1 = run_registrations(handles_upto(regs, regs.len() as int), regs, gens, bodies);
    let b2 = gravity_pass(handles_upto(b1, b1.len() as int), b1, gravity);
    let cols = detect_pairs(handles_upto(b2, b2.len() as int), 0, 1, b2, colliders);
    let b3 = resolve_rounds(b2, cols, IMPULSE_ITERATIONS as nat);
    let out = integrate_pass(handles_upto(b3, b3.len() as int), b3, colliders, dt);
    (out.0, out.1, cols)
}

/// The per-frame driver: the fixed timestep and the scratch list of
/// collision records, rebuilt every step.
#[derive(Debug)]
pub struct PhysicsPipeline {
    pub fixed_dt: i64,
    pub collisions: Vec<Collision>,
}

/// Add the gravity force to every stored body, in slot order.
fn run_gravity(bodies: &mut RigidBodySet, gravity: Vec2)
    requires
        old(bodies).bodies.wf(),
    ensures
        final(bodies).bodies.wf(),
        final(bodies).bodies.slots@ == gravity_pass(
            handles_upto(old(bodies).bodies.slots@, old(bodies).bodies.slots@.len() as int),
            old(bodies).bodies.slots@,
            gravity,
        ),
{
    let hs: Vec<Handle> = bodies.bodies.handles();
    let ghost all = handles_upto(bodies.bodies.slots@, bodies.bodies.slots@.len() as int);
    let n: usize = hs.len();
    let mut i: usize = 0;
    proof {
        assert(all.skip(0) =~= all);
    }
    while i < n
        invariant
            0 <= i <= n,
            n == hs@.len(),
            hs@ == all,
            bodies.bodies.wf(),
            gravity_pass(all.skip(i as int), bodies.bodies.slots@, gravity) == gravity_pass(
                all,
                old(bodies).bodies.slots@,
                gravity,
            ),
        decreases n - i,
    {
        let ghost pre = bodies.bodies.slots@;
        let h: Handle = hs[i];
        match bodies.bodies.get_mut(h) {
            None => {},
            Some(b) => {
                let m: i64 = b.mass;
                let f: Vec2 = gravity.scale(m);
                b.add_force(f);
            },
        }
        proof {
            assert(bodies.bodies.slots@ == apply_gravity(pre, h, gravity));
            assert(all.skip(i as int).drop_first() =~= all.skip(i + 1));
            assert(all.skip(i as int)[0] == h);
        }
        i = i + 1;
    }
    proof {
        assert(all.skip(n as int) =~= Seq::<Handle>::empty());
    }
}

/// Record the collision of every unordered body pair whose shapes overlap.
fn detect_collisions(bodies: &RigidBodySet, colliders: &ColliderSet) -> (r: Vec<Collision>)
    ensures
        r@ == detect_pairs(
            handles_upto(bodies.bodies.slots@, bodies.bodies.slots@.len() as int),
            0,
            1,
            bodies.bodies.slots@,
            colliders.colliders.slots@,
        ),
{
    let hs: Vec<Handle> = bodies.bodies.handles();
    let ghost all = handles_upto(bodies.bodies.slots@, bodies.bodies.slots@.len() as int);
    let ghost bview = bodies.bodies.slots@;
    let ghost cview = colliders.colliders.slots@;
    let n: usize = hs.len();
    let mut r: Vec<Collision> = Vec::new();
    let mut i: usize = 0;
    while i < n
        invariant
            0 <= i <= n,
            n == hs@.len(),
            hs@ == all,
            bview == bodies.bodies.slots@,
            cview == colliders.colliders.slots@,
            r@ + detect_pairs(all, i as int, i + 1, bview, cview) == detect_pairs(
                all,
                0,
                1,
                bview,
                cview,
            ),
        decreases n - i,
    {
        let mut j: usize = i + 1;
        while j < n
            invariant
                0 <= i < n,
                i < j <= n,
                n == hs@.len(),
                hs@ == all,
                bview == bodies.bodies.slots@,
                cview == colliders.colliders.slots@,
                r@ + detect_pairs(all, i as int, j as int, bview, cview) == detect_pairs(
                    all,
                    0,
                    1,
                    bview,
                    cview,
                ),
            decreases n - j,
        {
            let h1: Handle = hs[i];
            let h2: Handle = hs[j];
            let ghost rpre = r@;
            match (bodies.bodies.get(h1), bodies.bodies.get(h2)) {
                (Some(b1), Some(b2)) => {
                    if !(b1.mass == 0 && b2.mass == 0) {
                        match (b1.collider, b2.collider) {
                            (Some(ch1), Some(ch2)) => {
                                match (colliders.get(ch1), colliders.get(ch2)) {
                                    (Some(c1), Some(c2)) => {
                                        match c1.test_collision(c2) {
                                            Some(m) => {
                                                r.push(
                                                    Collision {
                                                        body_handle1: RigidBodyHandle(h1),
                                                        body_handle2: RigidBodyHandle(h2),
                                                        manifold: m,
                                                    },
                                                );
                                            },
                                            None => {},
                                        }
                                    },
                                    _ => {},
                                }
                            },
                            _ => {},
                        }
                    }
                },
                _ => {},
            }
            proof {
                match pair_collision(bview, cview, h1, h2) {
                    None => {
                        assert(r@ == rpre);
                    },
                    Some(c) => {
                        assert(r@ == rpre.push(c));
                        assert(rpre.push(c) + detect_pairs(all, i as int, j + 1, bview, cview)
                            =~= rpre + (seq![c] + detect_pairs(all, i as int, j + 1, bview, cview)));
                    },
                }
            }
            j = j + 1;
        }
        i = i + 1;
    }
    proof {
        assert(detect_pairs(all, n as int, n as int + 1, bview, cview) == Seq::<
            Collision,
        >::empty());
        assert(r@ + Seq::<Collision>::empty() =~= r@);
    }
    r
}

/// Run the impulse resolution passes over the recorded collisions.
fn resolve_collisions(collisions: &Vec<Collision>, bodies: &mut RigidBodySet)
    requires
        old(bodies).bodies.wf(),
    ensures
        final(bodies).bodies.wf(),
        final(bodies).bodies.slots@ == resolve_rounds(
            old(bodies).bodies.slots@,
            collisions@,
            IMPULSE_ITERATIONS as nat,
        ),
{
    let mut round: u64 = 0;
    while round < IMPULSE_ITERATIONS
        invariant
            0 <= round <= IMPULSE_ITERATIONS,
            bodies.bodies.wf(),
            resolve_rounds(
                bodies.bodies.slots@,
                collisions@,
                (IMPULSE_ITERATIONS - round) as nat,
            ) == resolve_rounds(
                old(bodies).bodies.slots@,
                collisions@,
                IMPULSE_ITERATIONS as nat,
            ),
        decreases IMPULSE_ITERATIONS - round,
    {
        let ghost round_start = bodies.bodies.slots@;
        let n: usize = collisions.len();
        let mut k: usize = 0;
        proof {
            assert(collisions@.skip(0) =~= collisions@);
        }
        while k < n
            invariant
                0 <= k <= n,
                n == collisions@.len(),
                bodies.bodies.wf(),
                resolve_list(bodies.bodies.slots@, collisions@.skip(k as int)) == resolve_list(
                    round_start,
                    collisions@,
                ),
            decreases n - k,
        {
            let ghost pre = bodies.bodies.slots@;
            let col: Collision = collisions[k];
            let pair = bodies.get2_mut(col.body_handle1, col.body_handle2);
            match pair {
                (Some(rb1), Some(rb2)) => {
                    apply_impulse(rb1, rb2, &col.manifold);
                },
                _ => {},
            }
            proof {
                assert(bodies.bodies.slots@ =~= resolve_collision(pre, col));
                assert(collisions@.skip(k as int).drop_first() =~= collisions@.skip(k + 1));
                assert(collisions@.skip(k as int)[0] == col);
            }
            k = k + 1;
        }
        proof {
            assert(collisions@.skip(n as int) =~= Seq::<Collision>::empty());
        }
        round = round + 1;
    }
}

/// Integrate every body and sync its collider, in slot order.
fn integrate_bodies(dt: i64, bodies: &mut RigidBodySet, colliders: &mut ColliderSet)
    requires
        old(bodies).bodies.wf(),
        old(colliders).colliders.wf(),
    ensures
        final(bodies).bodies.wf(),
        final(colliders).colliders.wf(),
        (final(bodies).bodies.slots@, final(colliders).colliders.slots@) == integrate_pass(
            handles_upto(old(bodies).bodies.slots@, old(bodies).bodies.slots@.len() as int),
            old(bodies).bodies.slots@,
            old(colliders).colliders.slots@,
            dt as int,
        ),
{
    let hs: Vec<Handle> = bodies.bodies.handles();
    let ghost all = handles_upto(bodies.bodies.slots@, bodies.bodies.slots@.len() as int);
    let n: usize = hs.len();
    let mut i: usize = 0;
    proof {
        assert(all.skip(0) =~= all);
    }
    while i < n
        invariant
            0 <= i <= n,
            n == hs@.len(),
            hs@ == all,
            bodies.bodies.wf(),
            colliders.colliders.wf(),
            integrate_pass(
                all.skip(i as int),
                bodies.bodies.slots@,
                colliders.colliders.slots@,
                dt as int,
            ) == integrate_pass(
                all,
                old(bodies).bodies.slots@,
                old(colliders).colliders.slots@,
                dt as int,
            ),
        decreases n - i,
    {
        let ghost bpre = bodies.bodies.slots@;
        let ghost cpre = colliders.colliders.slots@;
        let h: Handle = hs[i];
        match bodies.bodies.get_mut(h) {
            None => {},
            Some(b) => {
                b.physics_update(dt, colliders);
            },
        }
        proof {
            assert((bodies.bodies.slots@, colliders.colliders.slots@) == integrate_one(
                bpre,
                cpre,
                h,
                dt as int,
            ));
            assert(all.skip(i as int).drop_first() =~= all.skip(i + 1));
            assert(all.skip(i as int)[0] == h);
        }
        i = i + 1;
    }
    proof {
        assert(all.skip(n as int) =~= Seq::<Handle>::empty());
    }
}

/// Apply one collision impulse to two bodies, exactly as [`impulse_pair`]
/// states: nothing happens when both bodies are immovable or they are
/// already separating along the normal.
pub fn apply_impulse(
    rb1: &mut RigidBody,
    rb2: &mut RigidBody,
    manifold: &crate::algo::CollisionManifold,
)
    ensures
        *final(rb1) == impulse_pair(*old(rb1), *old(rb2), *manifold).0,
        *final(rb2) == impulse_pair(*old(rb1), *old(rb2), *manifold).1,
{
    let inv_mass_sum: i64 = fadd(rb1.inv_mass, rb2.inv_mass);
    if inv_mass_sum == 0 {
        return ;
    }
    let relative_vel: Vec2 = rb2.linear_velocity.sub(rb1.linear_velocity);
    let d: i64 = relative_vel.dot(manifold.normal);
    if d > 0 {
        return ;
    }
    let e: i64 = fmin(rb1.cor, rb2.cor);
    let impulse_vel: i64 = fneg(fmul(fadd(SCALE, e), d));
    let impulse: i64 = fdiv(impulse_vel, inv_mass_sum);
    let k1: i64 = fmul(rb1.inv_mass, impulse);
    rb1.linear_velocity = rb1.linear_velocity.sub(manifold.normal.scale(k1));
    let k2: i64 = fmul(rb2.inv_mass, impulse);
    rb2.linear_velocity = rb2.linear_velocity.add(manifold.normal.scale(k2));
}

impl PhysicsPipeline {
    /// A pipeline with the given fixed timestep and no recorded collisions.
    pub fn new(fixed_dt: i64) -> (r: PhysicsPipeline)
        ensures
            r.fixed_dt == fixed_dt,
            r.collisions@ == Seq::<Collision>::empty(),
    {
        PhysicsPipeline { fixed_dt, collisions: Vec::new() }
    }

    /// The fixed timestep.
    pub fn fixed_dt(&self) -> (r: i64)
        ensures
            r == self.fixed_dt,
    {
        self.fixed_dt
    }

    /// Replace the fixed timestep.
    pub fn set_fixed_dt(&mut self, fixed_dt: i64)
        ensures
            final(self).fixed_dt == fixed_dt,
            final(self).collisions == old(self).collisions,
    {
        self.fixed_dt = fixed_dt;
    }

    /// Advance the simulation by one frame (the variable timestep is
    /// accepted but the fixed timestep is used).
    pub fn step(
        &mut self,
        dt: i64,
        gravity: Vec2,
        bodies: &mut RigidBodySet,
        colliders: &mut ColliderSet,
        generators: &ForceGeneratorSet,
        force_registry: &ForceRegistry,
    )
        requires
            old(bodies).bodies.wf(),
            old(colliders).colliders.wf(),
        ensures
            final(bodies).bodies.wf(),
            final(colliders).colliders.wf(),
            final(self).fixed_dt == old(self).fixed_dt,
            ({
                let out = step_result(
                    old(self).fixed_dt as int,
                    gravity,
                    old(bodies).bodies.slots@,
                    old(colliders).colliders.slots@,
                    generators.generators.slots@,
                    force_registry.arena.slots@,
                );
                &&& final(bodies).bodies.slots@ == out.0
                &&& final(colliders).colliders.slots@ == out.1
                &&& final(self).collisions@ == out.2
            }),
    {
        self.fixed_step(gravity, bodies, colliders, generators, force_registry);
    }

    /// Advance the simulation by one fixed step: forces, gravity, detection,
    /// resolution, integration, exactly as [`step_result`] states.
    pub fn fixed_step(
        &mut self,
        gravity: Vec2,
        bodies: &mut RigidBodySet,
        colliders: &mut ColliderSet,
        generators: &ForceGeneratorSet,
        force_registry: &ForceRegistry,
    )
        requires
            old(bodies).bodies.wf(),
            old(colliders).colliders.wf(),
        ensures
            final(bodies).bodies.wf(),
            final(colliders).colliders.wf(),
            final(self).fixed_dt == old(self).fixed_dt,
            ({
                let out = step_result(
                    old(self).fixed_dt as int,
                    gravity,
                    old(bodies).bodies.slots@,
                    old(colliders).colliders.slots@,
                    generators.generators.slots@,
                    force_registry.arena.slots@,
                );
                &&& final(bodies).bodies.slots@ == out.0
                &&& final(colliders).colliders.slots@ == out.1
                &&& final(self).collisions@ == out.2
            }),
    {
        force_registry.update_forces(bodies, generators, self.fixed_dt);
        run_gravity(bodies, gravity);
        let cols: Vec<Collision> = detect_collisions(bodies, colliders);
        self.collisions = cols;
        resolve_collisions(&self.collisions, bodies);
        integrate_bodies(self.fixed_dt, bodies, colliders);
    }
}

} // verus!
