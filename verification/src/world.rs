//! A self-contained world for plain force-driven motion: bodies, a gravity
//! generator, and the force registry, stepped without collision handling.

use vstd::prelude::*;

use crate::arena::{handles_upto, Handle, Slot};
use crate::body::{integrated, RigidBody, RigidBodyHandle};
use crate::force::{
    run_registrations, ForceGenerator, ForceGeneratorHandle, ForceGeneratorSet, ForceRegistry,
    Gravity,
};
use crate::sets::RigidBodySet;
use crate::vec2::Vec2;

verus! {

/// The body slots after every body named by `hs` has been integrated (no
/// collider sync: the world tracks none).
pub open spec fn world_integrate(hs: Seq<Handle>, bodies: Seq<Slot<RigidBody>>, dt: int) -> Seq<
    Slot<RigidBody>,
>
    decreases hs.len(),
{
    if hs.len() == 0 {
        bodies
    } else {
        let b = bodies;
        let h = hs[0];
        let next = if crate::arena::slot_valid(b, h) {
            b.update(
                h.index as int,
                Slot {
                    generation: h.generation,
                    value: Some(integrated(crate::arena::slot_at(b, h), dt)),
                },
            )
        } else {
            b
        };
        world_integrate(hs.drop_first(), next, dt)
    }
}

/// One fixed update of the world: the registry's forces, then integration.
pub open spec fn world_step(
    bodies: Seq<Slot<RigidBody>>,
    gens: Seq<Slot<ForceGenerator>>,
    regs: Seq<Slot<crate::force::ForceRegistration>>,
    dt: int,
) -> Seq<Slot<RigidBody>> {
    let b1 = run_registrations(handles_upto(regs, regs.len() as int), regs, gens, bodies);
    world_integrate(handles_upto(b1, b1.len() as int), b1, dt)
}

/// A world of bodies under a single gravity generator, stepped at a fixed
/// timestep.
#[derive(Debug)]
pub struct PhysicsWorld {
    pub rigid_bodies: RigidBodySet,
    pub force_generators: ForceGeneratorSet,
    pub force_registry: ForceRegistry,
    pub gravity_handle: ForceGeneratorHandle,
    pub fixed_dt: i64,
}

/// The world's sets are well formed and its gravity generator is stored.
pub open spec fn world_wf(w: PhysicsWorld) -> bool {
    &&& w.rigid_bodies.bodies.wf()
    &&& w.force_generators.generators.wf()
    &&& w.force_registry.arena.wf()
}

impl PhysicsWorld {
    /// A world with one gravity generator and no bodies.
    pub fn new(gravity: Vec2, fixed_dt: i64) -> (r: PhysicsWorld)
        ensures
            world_wf(r),
            r.fixed_dt == fixed_dt,
            r.rigid_bodies.bodies.slots@.len() == 0,
            r.force_generators.generators.valid(r.gravity_handle.0),
            r.force_generators.generators.at(r.gravity_handle.0) == ForceGenerator::Gravity(
                Gravity(gravity),
            ),
    {
        let gravity_gen = Gravity::new(gravity);
        let mut force_generators = ForceGeneratorSet::new();
        let gravity_handle = force_generators.insert(ForceGenerator::Gravity(gravity_gen));
        PhysicsWorld {
            rigid_bodies: RigidBodySet::new(),
            force_generators,
            force_registry: ForceRegistry::new(),
            gravity_handle,
            fixed_dt,
        }
    }

    /// Advance the world by one frame (the variable timestep is accepted but
    /// the fixed timestep is used).
    pub fn update(&mut self, dt: i64)
        requires
            world_wf(*old(self)),
        ensures
            world_wf(*final(self)),
            final(self).rigid_bodies.bodies.slots@ == world_step(
                old(self).rigid_bodies.bodies.slots@,
                old(self).force_generators.generators.slots@,
                old(self).force_registry.arena.slots@,
                old(self).fixed_dt as int,
            ),
            final(self).force_generators == old(self).force_generators,
            final(self).force_registry == old(self).force_registry,
            final(self).fixed_dt == old(self).fixed_dt,
            final(self).gravity_handle == old(self).gravity_handle,
    {
        self.fixed_update();
    }

    /// Advance the world by one fixed step: forces, then integration,
    /// exactly as [`world_step`] states.
    pub fn fixed_update(&mut self)
        requires
            world_wf(*old(self)),
        ensures
            world_wf(*final(self)),
            final(self).rigid_bodies.bodies.slots@ == world_step(
                old(self).rigid_bodies.bodies.slots@,
                old(self).force_generators.generators.slots@,
                old(self).force_registry.arena.slots@,
                old(self).fixed_dt as int,
            ),
            final(self).force_generators == old(self).force_generators,
            final(self).force_registry == old(self).force_registry,
            final(self).fixed_dt == old(self).fixed_dt,
            final(self).gravity_handle == old(self).gravity_handle,
    {
        self.force_registry.update_forces(
            &mut self.rigid_bodies,
            &self.force_generators,
            self.fixed_dt,
        );
        let ghost after_forces = self.rigid_bodies.bodies.slots@;
        let dt: i64 = self.fixed_dt;
        let hs: Vec<RigidBodyHandle> = self.rigid_bodies.handles();
        let ghost all = handles_upto(after_forces, after_forces.len() as int);
        let n: usize = hs.len();
        let mut i: usize = 0;
        proof {
            assert(all.skip(0) =~= all);
        }
        while i < n
            invariant
                0 <= i <= n,
                n == hs@.len(),
                forall|j: int| 0 <= j < n ==> hs@[j] == RigidBodyHandle(all[j]),
                n == all.len(),
                self.rigid_bodies.bodies.wf(),
                self.force_generators == old(self).force_generators,
                self.force_registry == old(self).force_registry,
                self.gravity_handle == old(self).gravity_handle,
                old(self).force_generators.generators.wf(),
                old(self).force_registry.arena.wf(),
                dt == self.fixed_dt,
                dt == old(self).fixed_dt,
                world_integrate(all.skip(i as int), self.rigid_bodies.bodies.slots@, dt as int)
                    == world_integrate(all, after_forces, dt as int),
            decreases n - i,
        {
            let ghost pre = self.rigid_bodies.bodies.slots@;
            let h: RigidBodyHandle = hs[i];
            match self.rigid_bodies.bodies.get_mut(h.0) {
                None => {},
                Some(b) => {
                    if b.mass != 0 {
                        let acc: Vec2 = b.force_accumulator.scale(b.inv_mass);
                        b.linear_velocity = b.linear_velocity.add(acc.scale(dt));
                        b.position = b.position.add(b.linear_velocity.scale(dt));
                        b.clear_accumelators();
                    }
                },
            }
            proof {
                assert(all.skip(i as int).drop_first() =~= all.skip(i + 1));
                assert(all.skip(i as int)[0] == h.0);
            }
            i = i + 1;
        }
        proof {
            assert(all.skip(n as int) =~= Seq::<Handle>::empty());
        }
    }

    /// Insert a body and register the world's gravity generator on it.
    pub fn add_rigid_body(&mut self, body: RigidBody) -> (h: RigidBodyHandle)
        requires
            world_wf(*old(self)),
        ensures
            world_wf(*final(self)),
            final(self).rigid_bodies.bodies.valid(h.0),
            final(self).rigid_bodies.bodies.at(h.0) == body,
            !old(self).rigid_bodies.bodies.valid(h.0),
    {
        let rigid_body_handle = self.rigid_bodies.insert(body);
        self.force_registry.insert(rigid_body_handle, self.gravity_handle);
        rigid_body_handle
    }
}

} // verus!
