//! Rigid bodies: kinematic and dynamic state, with semi-implicit Euler
//! integration.

use vstd::prelude::*;

use crate::arena::Handle;
use crate::fx::{fdiv, sp_div, SCALE};
use crate::sets::{colliders_with_position, ColliderHandle, ColliderSet};
use crate::vec2::{vadd, vscale, Vec2};

verus! {

/// A stable reference to a rigid body.
#[derive(Clone, Copy, Debug, PartialEq, Eq, Hash, Structural)]
pub struct RigidBodyHandle(pub Handle);

/// A stable reference to a force registration.
#[derive(Clone, Copy, Debug, PartialEq, Eq, Hash, Structural)]
pub struct ForceRegistrationHandle(pub Handle);

/// Per-body state: position and rotation, mass with its cached inverse,
/// velocity, the per-step force accumulator, and back-references to the
/// body's collider and force registrations.
///
/// Angular velocity and the damping factors are tracked but not driven by
/// the collision step.
#[derive(Clone, Debug)]
pub struct RigidBody {
    pub is_rotation_fixed: bool,
    /// Coefficient of restitution (fixed-point; one whole unit = elastic).
    pub cor: i64,
    pub position: Vec2,
    pub rotation: i64,
    pub mass: i64,
    pub inv_mass: i64,
    pub force_accumulator: Vec2,
    pub linear_velocity: Vec2,
    pub angular_velocity: i64,
    pub linear_damping: i64,
    pub angular_damping: i64,
    pub collider: Option<ColliderHandle>,
    pub force_registrations: Vec<ForceRegistrationHandle>,
}

/// The cached inverse mass matches the mass: zero for an infinite-mass
/// (immovable) body, otherwise the fixed-point reciprocal.
pub open spec fn body_wf(b: RigidBody) -> bool {
    b.inv_mass as int == sp_div(SCALE as int, b.mass as int)
}

/// One semi-implicit Euler step of a body: velocity picks up the
/// acceleration (accumulated force times inverse mass), position picks up
/// the new velocity, and the accumulator is cleared. An infinite-mass body
/// is left untouched.
pub open spec fn integrated(b: RigidBody, dt: int) -> RigidBody {
    if b.mass == 0 {
        b
    } else {
        let acc = vscale(b.force_accumulator, b.inv_mass as int);
        let v = vadd(b.linear_velocity, vscale(acc, dt));
        let p = vadd(b.position, vscale(v, dt));
        RigidBody {
            position: p,
            linear_velocity: v,
            force_accumulator: Vec2 { x: 0i64, y: 0i64 },
            ..b
        }
    }
}

impl RigidBody {
    /// A body at rest at the given position and rotation, with infinite
    /// mass, a fully elastic restitution, and no collider.
    pub fn new(position: Vec2, rotation: i64) -> (r: RigidBody)
        ensures
            r == (RigidBody {
                is_rotation_fixed: false,
                cor: SCALE,
                position,
                rotation,
                mass: 0i64,
                inv_mass: 0i64,
                force_accumulator: Vec2 { x: 0i64, y: 0i64 },
                linear_velocity: Vec2 { x: 0i64, y: 0i64 },
                angular_velocity: 0i64,
                linear_damping: 0i64,
                angular_damping: 0i64,
                collider: None::<ColliderHandle>,
                force_registrations: r.force_registrations,
            }),
            r.force_registrations@ == Seq::<ForceRegistrationHandle>::empty(),
            body_wf(r),
    {
        RigidBody {
            is_rotation_fixed: false,
            cor: SCALE,
            position,
            rotation,
            mass: 0,
            inv_mass: 0,
            force_accumulator: Vec2 { x: 0, y: 0 },
            linear_velocity: Vec2 { x: 0, y: 0 },
            angular_velocity: 0,
            linear_damping: 0,
            angular_damping: 0,
            collider: None,
            force_registrations: Vec::new(),
        }
    }

    /// Integrate the body over one timestep and push the new position into
    /// its collider (when it has one that is still stored).
    pub fn physics_update(&mut self, dt: i64, colliders: &mut ColliderSet)
        requires
            old(colliders).colliders.wf(),
        ensures
            final(colliders).colliders.wf(),
            *final(self) == integrated(*old(self), dt as int),
            old(self).mass == 0 ==> *final(colliders) == *old(colliders),
            old(self).mass != 0 ==> final(colliders).colliders.slots@ == (match old(self).collider {
                None => old(colliders).colliders.slots@,
                Some(ch) => colliders_with_position(
                    old(colliders).colliders.slots@,
                    ch.0,
                    integrated(*old(self), dt as int).position,
                ),
            }),
    {
        if self.mass == 0 {
            return ;
        }
        let acceleration: Vec2 = self.force_accumulator.scale(self.inv_mass);
        self.linear_velocity = self.linear_velocity.add(acceleration.scale(dt));
        self.position = self.position.add(self.linear_velocity.scale(dt));

        match self.collider {
            Some(collider) => {
                colliders.update_position(collider, self.position);
            },
            None => {},
        }

        self.clear_accumelators();
    }

    /// Add a force contribution to the per-step accumulator.
    pub fn add_force(&mut self, force: Vec2)
        ensures
            *final(self) == (RigidBody {
                force_accumulator: vadd(old(self).force_accumulator, force),
                ..*old(self)
            }),
    {
        self.force_accumulator = self.force_accumulator.add(force);
    }

    /// Record the body's collider.
    pub fn set_collider(&mut self, collider: ColliderHandle)
        ensures
            *final(self) == (RigidBody { collider: Some(collider), ..*old(self) }),
    {
        self.collider = Some(collider);
    }

    /// Reset the force accumulator to zero.
    pub fn clear_accumelators(&mut self)
        ensures
            *final(self) == (RigidBody {
                force_accumulator: Vec2 { x: 0i64, y: 0i64 },
                ..*old(self)
            }),
    {
        self.force_accumulator = Vec2 { x: 0, y: 0 };
    }

    /// The body's linear velocity.
    pub fn linear_velocity(&self) -> (r: Vec2)
        ensures
            r == self.linear_velocity,
    {
        self.linear_velocity
    }

    /// The body's angular velocity (tracked, not driven by the step).
    pub fn angular_velocity(&self) -> (r: i64)
        ensures
            r == self.angular_velocity,
    {
        self.angular_velocity
    }

    /// The body's linear damping (tracked, unused by the core step).
    pub fn linear_damping(&self) -> (r: i64)
        ensures
            r == self.linear_damping,
    {
        self.linear_damping
    }

    /// The body's angular damping (tracked, unused by the core step).
    pub fn angular_damping(&self) -> (r: i64)
        ensures
            r == self.angular_damping,
    {
        self.angular_damping
    }

    /// The body's mass (zero denotes infinite mass).
    pub fn mass(&self) -> (r: i64)
        ensures
            r == self.mass,
    {
        self.mass
    }

    /// The body's cached inverse mass.
    pub fn inv_mass(&self) -> (r: i64)
        ensures
            r == self.inv_mass,
    {
        self.inv_mass
    }

    /// Set the mass and recompute the cached inverse mass (zero mass maps to
    /// inverse mass zero).
    pub fn set_mass(&mut self, mass: i64)
        ensures
            *final(self) == (RigidBody {
                mass,
                inv_mass: sp_div(SCALE as int, mass as int) as i64,
                ..*old(self)
            }),
            body_wf(*final(self)),
    {
        self.mass = mass;
        self.inv_mass = fdiv(SCALE, mass);
    }

    /// Whether the body is immovable.
    pub fn has_infinite_mass(&self) -> (r: bool)
        ensures
            r == (self.mass == 0),
    {
        self.mass == 0
    }

    /// The body's position and rotation together.
    pub fn transform(&self) -> (r: crate::geometry::Transform)
        ensures
            r == (crate::geometry::Transform { position: self.position, rotation: self.rotation }),
    {
        crate::geometry::Transform { position: self.position, rotation: self.rotation }
    }

    /// The body's position.
    pub fn position(&self) -> (r: Vec2)
        ensures
            r == self.position,
    {
        self.position
    }

    /// The body's rotation.
    pub fn rotation(&self) -> (r: i64)
        ensures
            r == self.rotation,
    {
        self.rotation
    }

    /// The body's collider, if any.
    pub fn collider(&self) -> (r: Option<ColliderHandle>)
        ensures
            r == self.collider,
    {
        self.collider
    }
}

} // verus!
