//! Force generators and the registry that applies them to bodies.
//!
//! A force generator is one variant of a closed enum; a registration pairs a
//! body handle with a generator handle. Once per step the registry walks its
//! registrations in slot order and adds each generator's contribution to its
//! body's force accumulator; the whole pass is pinned to the
//! [`run_registrations`] fold.

use vstd::prelude::*;

use crate::arena::{handles_upto, occ, slot_at, slot_valid, Arena, Handle, Slot};
use crate::body::{ForceRegistrationHandle, RigidBody, RigidBodyHandle};
use crate::sets::RigidBodySet;
use crate::vec2::{vadd, vscale, Vec2};

verus! {

/// A stable reference to a force generator.
#[derive(Clone, Copy, Debug, PartialEq, Eq, Hash, Structural)]
pub struct ForceGeneratorHandle(pub Handle);

/// A uniform gravity field: contributes its acceleration times the body's
/// mass.
#[derive(Clone, Copy, Debug, PartialEq, Eq, Structural)]
pub struct Gravity(pub Vec2);

impl Gravity {
    /// Build a gravity generator from its acceleration vector.
    pub fn new(force: Vec2) -> (r: Gravity)
        ensures
            r == Gravity(force),
    {
        Gravity(force)
    }
}

/// A pluggable unit of force behavior, as a closed set of variants.
#[derive(Clone, Copy, Debug, PartialEq, Eq, Structural)]
pub enum ForceGenerator {
    Gravity(Gravity),
}

/// The force a generator contributes to a body in one step.
pub open spec fn generator_force(g: ForceGenerator, b: RigidBody) -> Vec2 {
    match g {
        ForceGenerator::Gravity(gr) => vscale(gr.0, b.mass as int),
    }
}

impl ForceGenerator {
    /// Add this generator's contribution to the body's force accumulator;
    /// nothing else about the body changes.
    pub fn update_force(&self, body: &mut RigidBody, dt: i64)
        ensures
            *final(body) == (RigidBody {
                force_accumulator: vadd(
                    old(body).force_accumulator,
                    generator_force(*self, *old(body)),
                ),
                ..*old(body)
            }),
    {
        match self {
            ForceGenerator::Gravity(g) => {
                let f: Vec2 = g.0.scale(body.mass);
                body.add_force(f);
            },
        }
    }
}

/// The handle-indexed set of force generators.
#[derive(Clone, Debug)]
pub struct ForceGeneratorSet {
    pub generators: Arena<ForceGenerator>,
}

impl ForceGeneratorSet {
    /// An empty set.
    pub fn new() -> (r: ForceGeneratorSet)
        ensures
            r.generators.wf(),
            r.generators.slots@.len() == 0,
    {
        ForceGeneratorSet { generators: Arena::new() }
    }

    /// Store a generator and hand back its handle.
    pub fn insert(&mut self, generator: ForceGenerator) -> (h: ForceGeneratorHandle)
        requires
            old(self).generators.wf(),
        ensures
            final(self).generators.wf(),
            final(self).generators.valid(h.0),
            final(self).generators.at(h.0) == generator,
            !old(self).generators.valid(h.0),
            forall|g: Handle|
                old(self).generators.valid(g) ==> final(self).generators.valid(g) && final(self).generators.at(g) == old(self).generators.at(g),
    {
        let index = self.generators.insert(generator);
        ForceGeneratorHandle(index)
    }

    /// Remove and return the generator at `handle`.
    pub fn remove(&mut self, handle: ForceGeneratorHandle) -> (r: Option<ForceGenerator>)
        requires
            old(self).generators.wf(),
        ensures
            final(self).generators.wf(),
            r is Some <==> old(self).generators.valid(handle.0),
            r is None ==> *final(self) == *old(self),
            r is Some ==> r->0 == old(self).generators.at(handle.0) && !final(self).generators.valid(handle.0),
    {
        self.generators.remove(handle.0)
    }

    /// Read the generator at `handle`.
    pub fn get(&self, handle: ForceGeneratorHandle) -> (r: Option<&ForceGenerator>)
        ensures
            r is Some <==> self.generators.valid(handle.0),
            r is Some ==> *r->0 == self.generators.at(handle.0),
    {
        self.generators.get(handle.0)
    }

    /// Number of stored generators.
    pub fn len(&self) -> (r: usize)
        ensures
            r == occ(self.generators.slots@),
    {
        self.generators.len()
    }

    /// Whether no generator is stored.
    pub fn is_empty(&self) -> (r: bool)
        ensures
            r <==> occ(self.generators.slots@) == 0,
    {
        self.generators.is_empty()
    }
}

/// A (body, generator) pairing: this generator acts on this body every step.
#[derive(Clone, Copy, Debug, PartialEq, Eq, Structural)]
pub struct ForceRegistration {
    pub rigid_body_handle: RigidBodyHandle,
    pub force_generator_handle: ForceGeneratorHandle,
}

/// The body slots after one registration has acted: when the registration,
/// its generator and its body are all stored, the body's accumulator picks
/// up the generator's force; otherwise nothing changes.
pub open spec fn apply_registration(
    regs: Seq<Slot<ForceRegistration>>,
    gens: Seq<Slot<ForceGenerator>>,
    bodies: Seq<Slot<RigidBody>>,
    h: Handle,
) -> Seq<Slot<RigidBody>> {
    if slot_valid(regs, h) {
        let reg = slot_at(regs, h);
        if slot_valid(gens, reg.force_generator_handle.0) && slot_valid(
            bodies,
            reg.rigid_body_handle.0,
        ) {
            let g = slot_at(gens, reg.force_generator_handle.0);
            let b = slot_at(bodies, reg.rigid_body_handle.0);
            bodies.update(
                reg.rigid_body_handle.0.index as int,
                Slot {
                    generation: reg.rigid_body_handle.0.generation,
                    value: Some(
                        RigidBody {
                            force_accumulator: vadd(b.force_accumulator, generator_force(g, b)),
                            ..b
                        },
                    ),
                },
            )
        } else {
            bodies
        }
    } else {
        bodies
    }
}

/// The body slots after the registrations named by `hs` have acted in
/// order.
pub open spec fn run_registrations(
    hs: Seq<Handle>,
    regs: Seq<Slot<ForceRegistration>>,
    gens: Seq<Slot<ForceGenerator>>,
    bodies: Seq<Slot<RigidBody>>,
) -> Seq<Slot<RigidBody>>
    decreases hs.len(),
{
    if hs.len() == 0 {
        bodies
    } else {
        run_registrations(
            hs.drop_first(),
            regs,
            gens,
            apply_registration(regs, gens, bodies, hs[0]),
        )
    }
}

/// The many-to-many association of bodies and force generators.
#[derive(Clone, Debug)]
pub struct ForceRegistry {
    pub arena: Arena<ForceRegistration>,
}

impl ForceRegistry {
    /// An empty registry.
    pub fn new() -> (r: ForceRegistry)
        ensures
            r.arena.wf(),
            r.arena.slots@.len() == 0,
    {
        ForceRegistry { arena: Arena::new() }
    }

    /// Register a generator to act on a body every step.
    pub fn insert(
        &mut self,
        rigid_body_handle: RigidBodyHandle,
        force_generator_handle: ForceGeneratorHandle,
    ) -> (h: ForceRegistrationHandle)
        requires
            old(self).arena.wf(),
        ensures
            final(self).arena.wf(),
            final(self).arena.valid(h.0),
            final(self).arena.at(h.0) == (ForceRegistration {
                rigid_body_handle,
                force_generator_handle,
            }),
            !old(self).arena.valid(h.0),
            forall|g: Handle|
                old(self).arena.valid(g) ==> final(self).arena.valid(g) && final(self).arena.at(g)
                    == old(self).arena.at(g),
    {
        let registration = ForceRegistration { rigid_body_handle, force_generator_handle };
        let index = self.arena.insert(registration);
        ForceRegistrationHandle(index)
    }

    /// Remove and return the registration at `handle`.
    pub fn remove(&mut self, handle: ForceRegistrationHandle) -> (r: Option<ForceRegistration>)
        requires
            old(self).arena.wf(),
        ensures
            final(self).arena.wf(),
            r is Some <==> old(self).arena.valid(handle.0),
            r is None ==> *final(self) == *old(self),
            r is Some ==> r->0 == old(self).arena.at(handle.0) && final(self).arena.slots@ == old(self).arena.slots@.update(
                handle.0.index as int,
                Slot {
                    generation: (handle.0.generation + 1) as u64,
                    value: None::<ForceRegistration>,
                },
            ),
            !final(self).arena.valid(handle.0),
            forall|g: Handle|
                old(self).arena.valid(g) && g.index != handle.0.index ==> final(self).arena.valid(g) && final(self).arena.at(g) == old(self).arena.at(g),
    {
        self.arena.remove(handle.0)
    }

    /// Remove every registration at once.
    pub fn clear(&mut self)
        requires
            old(self).arena.wf(),
        ensures
            final(self).arena.wf(),
            forall|g: Handle| !final(self).arena.valid(g),
    {
        self.arena.clear()
    }

    /// Run every registration in slot order: each one adds its generator's
    /// force to its body's accumulator, exactly as [`run_registrations`]
    /// states; registrations naming a removed body or generator are ignored.
    pub fn update_forces(&self, bodies: &mut RigidBodySet, generators: &ForceGeneratorSet, dt: i64)
        requires
            old(bodies).bodies.wf(),
        ensures
            final(bodies).bodies.wf(),
            final(bodies).bodies.slots@ == run_registrations(
                handles_upto(self.arena.slots@, self.arena.slots@.len() as int),
                self.arena.slots@,
                generators.generators.slots@,
                old(bodies).bodies.slots@,
            ),
    {
        let hs: Vec<Handle> = self.arena.handles();
        let ghost all = handles_upto(self.arena.slots@, self.arena.slots@.len() as int);
        let n: usize = hs.len();
        let mut i: usize = 0;
        proof {
            assert(all.skip(0) =~= all);
        }
        while i < n
            invariant
                0 <= i <= n,
                n == hs@.len(),
                hs@ == all,
                bodies.bodies.wf(),
                run_registrations(
                    all.skip(i as int),
                    self.arena.slots@,
                    generators.generators.slots@,
                    bodies.bodies.slots@,
                ) == run_registrations(
                    all,
                    self.arena.slots@,
                    generators.generators.slots@,
                    old(bodies).bodies.slots@,
                ),
            decreases n - i,
        {
            let ghost pre = bodies.bodies.slots@;
            let rh: Handle = hs[i];
            match self.arena.get(rh) {
                None => {},
                Some(reg_ref) => {
                    let reg: ForceRegistration = *reg_ref;
                    match generators.generators.get(reg.force_generator_handle.0) {
                        None => {},
                        Some(gen_ref) => {
                            let g: ForceGenerator = *gen_ref;
                            match bodies.bodies.get_mut(reg.rigid_body_handle.0) {
                                None => {},
                                Some(b) => {
                                    g.update_force(b, dt);
                                },
                            }
                        },
                    }
                },
            }
            proof {
                assert(bodies.bodies.slots@ == apply_registration(
                    self.arena.slots@,
                    generators.generators.slots@,
                    pre,
                    rh,
                ));
                assert(all.skip(i as int).drop_first() =~= all.skip(i + 1));
                assert(all.skip(i as int)[0] == rh);
            }
            i = i + 1;
        }
        proof {
            assert(all.skip(n as int) =~= Seq::<Handle>::empty());
        }
    }
}

} // verus!
