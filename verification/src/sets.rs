//! Handle-indexed sets of colliders and rigid bodies, with the cascade
//! removals that keep the cross-references between them consistent.

use vstd::prelude::*;

use crate::arena::{occ, slot_at, slot_valid, Arena, Handle, Slot};
use crate::body::{ForceRegistrationHandle, RigidBody, RigidBodyHandle};
use crate::collider::{shape_at_position, Collider};
use crate::force::ForceRegistry;
use crate::vec2::Vec2;

verus! {

/// A stable reference to a collider.
#[derive(Clone, Copy, Debug, PartialEq, Eq, Hash, Structural)]
pub struct ColliderHandle(pub Handle);

/// The collider slots after the collider at `h` (if stored) has been moved
/// to `p`, keeping its parent.
pub open spec fn colliders_with_position(cs: Seq<Slot<Collider>>, h: Handle, p: Vec2) -> Seq<
    Slot<Collider>,
> {
    if slot_valid(cs, h) {
        cs.update(
            h.index as int,
            Slot {
                generation: h.generation,
                value: Some(
                    Collider {
                        shape: shape_at_position(slot_at(cs, h).shape, p),
                        parent: slot_at(cs, h).parent,
                    },
                ),
            },
        )
    } else {
        cs
    }
}

/// The handle-indexed set of colliders.
#[derive(Clone, Debug)]
pub struct ColliderSet {
    pub colliders: Arena<Collider>,
}

impl ColliderSet {
    /// An empty set.
    pub fn new() -> (r: ColliderSet)
        ensures
            r.colliders.wf(),
            r.colliders.slots@.len() == 0,
    {
        ColliderSet { colliders: Arena::new() }
    }

    /// Store a collider and hand back its handle.
    pub fn insert(&mut self, collider: Collider) -> (h: ColliderHandle)
        requires
            old(self).colliders.wf(),
        ensures
            final(self).colliders.wf(),
            final(self).colliders.valid(h.0),
            final(self).colliders.at(h.0) == collider,
            !old(self).colliders.valid(h.0),
            occ(final(self).colliders.slots@) == occ(old(self).colliders.slots@) + 1,
            forall|g: Handle|
                old(self).colliders.valid(g) ==> final(self).colliders.valid(g) && final(self).colliders.at(g) == old(self).colliders.at(g),
    {
        let index = self.colliders.insert(collider);
        ColliderHandle(index)
    }

    /// Store a collider owned by `body_handle`: the collider is moved to the
    /// body's position, its parent is set, and the body's collider field is
    /// back-linked. When the body is not stored, the collider is inserted
    /// unowned instead.
    pub fn insert_with_parent(
        &mut self,
        collider: Collider,
        body_handle: RigidBodyHandle,
        bodies: &mut RigidBodySet,
    ) -> (h: ColliderHandle)
        requires
            old(self).colliders.wf(),
            old(bodies).bodies.wf(),
        ensures
            final(self).colliders.wf(),
            final(bodies).bodies.wf(),
            final(self).colliders.valid(h.0),
            !old(self).colliders.valid(h.0),
            !old(bodies).bodies.valid(body_handle.0) ==> final(self).colliders.at(h.0)
                == collider && *final(bodies) == *old(bodies),
            old(bodies).bodies.valid(body_handle.0) ==> ({
                let body = old(bodies).bodies.at(body_handle.0);
                &&& final(self).colliders.at(h.0) == (Collider {
                    shape: shape_at_position(collider.shape, body.position),
                    parent: Some(body_handle),
                })
                &&& final(bodies).bodies.slots@ == old(bodies).bodies.slots@.update(
                    body_handle.0.index as int,
                    Slot {
                        generation: body_handle.0.generation,
                        value: Some(RigidBody { collider: Some(h), ..body }),
                    },
                )
            }),
            forall|g: Handle|
                old(self).colliders.valid(g) ==> final(self).colliders.valid(g) && final(self).colliders.at(g) == old(self).colliders.at(g),
    {
        let mut collider = collider;
        let position: Option<Vec2> = match bodies.bodies.get(body_handle.0) {
            Some(body) => Some(body.position),
            None => None,
        };
        match position {
            None => {
                let index = self.colliders.insert(collider);
                ColliderHandle(index)
            },
            Some(p) => {
                collider.parent = Some(body_handle);
                collider.update_position(p);
                let index = self.colliders.insert(collider);
                let collider_handle = ColliderHandle(index);
                match bodies.bodies.get_mut(body_handle.0) {
                    Some(body) => {
                        body.collider = Some(collider_handle);
                    },
                    None => {},
                }
                collider_handle
            },
        }
    }

    /// Remove and return the collider at `handle`; when it had an owning
    /// body that is still stored, the body's back-link is cleared.
    pub fn remove(&mut self, handle: ColliderHandle, bodies: &mut RigidBodySet) -> (r: Option<
        Collider,
    >)
        requires
            old(self).colliders.wf(),
            old(bodies).bodies.wf(),
        ensures
            final(self).colliders.wf(),
            final(bodies).bodies.wf(),
            r is Some <==> old(self).colliders.valid(handle.0),
            r is None ==> *final(self) == *old(self) && *final(bodies) == *old(bodies),
            r is Some ==> r->0 == old(self).colliders.at(handle.0) && !final(self).colliders.valid(handle.0),
            r is Some ==> final(self).colliders.slots@ == old(self).colliders.slots@.update(
                handle.0.index as int,
                Slot { generation: (handle.0.generation + 1) as u64, value: None::<Collider> },
            ),
            r is Some ==> final(bodies).bodies.slots@ == (match old(self).colliders.at(
                handle.0,
            ).parent {
                None => old(bodies).bodies.slots@,
                Some(ph) => (if slot_valid(old(bodies).bodies.slots@, ph.0) {
                    old(bodies).bodies.slots@.update(
                        ph.0.index as int,
                        Slot {
                            generation: ph.0.generation,
                            value: Some(
                                RigidBody {
                                    collider: None,
                                    ..slot_at(old(bodies).bodies.slots@, ph.0)
                                },
                            ),
                        },
                    )
                } else {
                    old(bodies).bodies.slots@
                }),
            }),
    {
        let removed: Option<Collider> = self.colliders.remove(handle.0);
        match removed {
            None => None,
            Some(collider) => {
                match collider.parent {
                    Some(parent_handle) => {
                        match bodies.bodies.get_mut(parent_handle.0) {
                            Some(body) => {
                                body.collider = None;
                            },
                            None => {},
                        }
                    },
                    None => {},
                }
                Some(collider)
            },
        }
    }

    /// Read the collider at `handle`.
    pub fn get(&self, handle: ColliderHandle) -> (r: Option<&Collider>)
        ensures
            r is Some <==> self.colliders.valid(handle.0),
            r is Some ==> *r->0 == self.colliders.at(handle.0),
    {
        self.colliders.get(handle.0)
    }

    /// Mutable access to the collider at `handle`.
    pub fn get_mut(&mut self, handle: ColliderHandle) -> (r: Option<&mut Collider>)
        requires
            old(self).colliders.wf(),
        ensures
            final(self).colliders.wf(),
            r is Some <==> old(self).colliders.valid(handle.0),
            r is None ==> *final(self) == *old(self),
            r is Some ==> *r->0 == old(self).colliders.at(handle.0) && final(self).colliders.slots@
                == old(self).colliders.slots@.update(
                handle.0.index as int,
                Slot { generation: handle.0.generation, value: Some(*final(r->0)) },
            ),
    {
        self.colliders.get_mut(handle.0)
    }

    /// Mutable access to two distinct colliders at once.
    pub fn get2_mut(&mut self, handle1: ColliderHandle, handle2: ColliderHandle) -> (r: (
        Option<&mut Collider>,
        Option<&mut Collider>,
    ))
        requires
            old(self).colliders.wf(),
        ensures
            final(self).colliders.wf(),
            final(self).colliders.slots@.len() == old(self).colliders.slots@.len(),
            r.0 is Some <==> old(self).colliders.valid(handle1.0),
            r.1 is Some <==> (old(self).colliders.valid(handle2.0) && handle1.0.index
                != handle2.0.index),
            r.0 is Some ==> *r.0->0 == old(self).colliders.at(handle1.0),
            r.1 is Some ==> *r.1->0 == old(self).colliders.at(handle2.0),
            forall|j: int|
                0 <= j < old(self).colliders.slots@.len() ==> final(self).colliders.slots@[j] == (
                if r.0 is Some && j == handle1.0.index {
                    (Slot {
                        generation: handle1.0.generation,
                        value: Some(*final(r.0.unwrap())),
                    })
                } else if r.1 is Some && j == handle2.0.index {
                    (Slot {
                        generation: handle2.0.generation,
                        value: Some(*final(r.1.unwrap())),
                    })
                } else {
                    old(self).colliders.slots@[j]
                }),
    {
        self.colliders.get2_mut(handle1.0, handle2.0)
    }

    /// Move the collider at `h` (when stored) to `position`.
    pub fn update_position(&mut self, h: ColliderHandle, position: Vec2)
        requires
            old(self).colliders.wf(),
        ensures
            final(self).colliders.wf(),
            final(self).colliders.slots@ == colliders_with_position(
                old(self).colliders.slots@,
                h.0,
                position,
            ),
    {
        match self.colliders.get_mut(h.0) {
            Some(c) => {
                c.update_position(position);
            },
            None => {},
        }
    }

    /// The handles of the stored colliders, in slot order.
    pub fn handles(&self) -> (r: Vec<ColliderHandle>)
        ensures
            r@.len() == crate::arena::handles_upto(
                self.colliders.slots@,
                self.colliders.slots@.len() as int,
            ).len(),
            forall|i: int|
                0 <= i < r@.len() ==> r@[i] == ColliderHandle(
                    crate::arena::handles_upto(
                        self.colliders.slots@,
                        self.colliders.slots@.len() as int,
                    )[i],
                ),
    {
        let hs: Vec<Handle> = self.colliders.handles();
        let mut r: Vec<ColliderHandle> = Vec::new();
        let mut i: usize = 0;
        let n: usize = hs.len();
        while i < n
            invariant
                0 <= i <= n,
                n == hs@.len(),
                r@.len() == i,
                forall|j: int| 0 <= j < i ==> r@[j] == ColliderHandle(hs@[j]),
            decreases n - i,
        {
            r.push(ColliderHandle(hs[i]));
            i = i + 1;
        }
        r
    }

    /// Number of stored colliders.
    pub fn len(&self) -> (r: usize)
        ensures
            r == occ(self.colliders.slots@),
    {
        self.colliders.len()
    }

    /// Whether no collider is stored.
    pub fn is_empty(&self) -> (r: bool)
        ensures
            r <==> occ(self.colliders.slots@) == 0,
    {
        self.colliders.is_empty()
    }
}

/// The handle-indexed set of rigid bodies.
#[derive(Clone, Debug)]
pub struct RigidBodySet {
    pub bodies: Arena<RigidBody>,
}

impl RigidBodySet {
    /// An empty set.
    pub fn new() -> (r: RigidBodySet)
        ensures
            r.bodies.wf(),
            r.bodies.slots@.len() == 0,
    {
        RigidBodySet { bodies: Arena::new() }
    }

    /// Store a body and hand back its handle.
    pub fn insert(&mut self, body: RigidBody) -> (h: RigidBodyHandle)
        requires
            old(self).bodies.wf(),
        ensures
            final(self).bodies.wf(),
            final(self).bodies.valid(h.0),
            final(self).bodies.at(h.0) == body,
            !old(self).bodies.valid(h.0),
            occ(final(self).bodies.slots@) == occ(old(self).bodies.slots@) + 1,
            forall|g: Handle|
                old(self).bodies.valid(g) ==> final(self).bodies.valid(g) && final(self).bodies.at(
                    g,
                ) == old(self).bodies.at(g),
    {
        let index = self.bodies.insert(body);
        RigidBodyHandle(index)
    }

    /// Remove and return the body at `handle`, detaching its collider's
    /// parent link and removing all of its force registrations.
    pub fn remove(
        &mut self,
        handle: RigidBodyHandle,
        colliders: &mut ColliderSet,
        registry: &mut ForceRegistry,
    ) -> (r: Option<RigidBody>)
        requires
            old(self).bodies.wf(),
            old(colliders).colliders.wf(),
            old(registry).arena.wf(),
        ensures
            final(self).bodies.wf(),
            final(colliders).colliders.wf(),
            final(registry).arena.wf(),
            r is Some <==> old(self).bodies.valid(handle.0),
            r is None ==> *final(self) == *old(self) && *final(colliders) == *old(colliders)
                && *final(registry) == *old(registry),
            r is Some ==> r->0 == old(self).bodies.at(handle.0) && !final(self).bodies.valid(
                handle.0,
            ) && final(self).bodies.slots@ == old(self).bodies.slots@.update(
                handle.0.index as int,
                Slot { generation: (handle.0.generation + 1) as u64, value: None::<RigidBody> },
            ),
            r is Some ==> final(colliders).colliders.slots@ == (match old(self).bodies.at(
                handle.0,
            ).collider {
                None => old(colliders).colliders.slots@,
                Some(ch) => (if slot_valid(old(colliders).colliders.slots@, ch.0) {
                    old(colliders).colliders.slots@.update(
                        ch.0.index as int,
                        Slot {
                            generation: ch.0.generation,
                            value: Some(
                                Collider {
                                    shape: slot_at(old(colliders).colliders.slots@, ch.0).shape,
                                    parent: None,
                                },
                            ),
                        },
                    )
                } else {
                    old(colliders).colliders.slots@
                }),
            }),
            // every registration named by the removed body is gone
            r is Some ==> forall|i: int|
                0 <= i < old(self).bodies.at(handle.0).force_registrations@.len()
                    ==> !final(registry).arena.valid(
                    old(self).bodies.at(handle.0).force_registrations@[i].0,
                ),
            // registrations the body did not name keep their values
            r is Some ==> forall|g: Handle|
                old(registry).arena.valid(g) && (forall|i: int|
                    0 <= i < old(self).bodies.at(handle.0).force_registrations@.len() ==> old(self).bodies.at(handle.0).force_registrations@[i].0.index != g.index) ==> final(registry).arena.valid(g) && final(registry).arena.at(g) == old(registry).arena.at(g),
    {
        let removed: Option<RigidBody> = self.bodies.remove(handle.0);
        match removed {
            None => None,
            Some(body) => {
                match body.collider {
                    Some(collider_handle) => {
                        match colliders.colliders.get_mut(collider_handle.0) {
                            Some(c) => {
                                c.parent = None;
                            },
                            None => {},
                        }
                    },
                    None => {},
                }
                let n: usize = body.force_registrations.len();
                let mut i: usize = 0;
                while i < n
                    invariant
                        0 <= i <= n,
                        n == body.force_registrations@.len(),
                        registry.arena.wf(),
                        forall|j: int|
                            0 <= j < i ==> !registry.arena.valid(
                                body.force_registrations@[j].0,
                            ),
                        forall|g: Handle|
                            old(registry).arena.valid(g) && (forall|j: int|
                                0 <= j < n ==> body.force_registrations@[j].0.index != g.index)
                                ==> registry.arena.valid(g) && registry.arena.at(g) == old(registry).arena.at(g),
                        forall|g: Handle| !old(registry).arena.valid(g) ==> g.generation
                            >= registry.arena.slots@[g.index as int].generation
                            || !registry.arena.valid(g),
                    decreases n - i,
                {
                    let rh: ForceRegistrationHandle = body.force_registrations[i];
                    registry.remove(rh);
                    i = i + 1;
                }
                Some(body)
            },
        }
    }

    /// Read the body at `handle`.
    pub fn get(&self, handle: RigidBodyHandle) -> (r: Option<&RigidBody>)
        ensures
            r is Some <==> self.bodies.valid(handle.0),
            r is Some ==> *r->0 == self.bodies.at(handle.0),
    {
        self.bodies.get(handle.0)
    }

    /// Mutable access to the body at `handle`.
    pub fn get_mut(&mut self, handle: RigidBodyHandle) -> (r: Option<&mut RigidBody>)
        requires
            old(self).bodies.wf(),
        ensures
            final(self).bodies.wf(),
            r is Some <==> old(self).bodies.valid(handle.0),
            r is None ==> *final(self) == *old(self),
            r is Some ==> *r->0 == old(self).bodies.at(handle.0) && final(self).bodies.slots@
                == old(self).bodies.slots@.update(
                handle.0.index as int,
                Slot { generation: handle.0.generation, value: Some(*final(r->0)) },
            ),
    {
        self.bodies.get_mut(handle.0)
    }

    /// Mutable access to two distinct bodies at once: both sides are
    /// populated exactly when both handles are valid and name different
    /// slots; asking for the same slot twice populates only the first side.
    pub fn get2_mut(&mut self, handle1: RigidBodyHandle, handle2: RigidBodyHandle) -> (r: (
        Option<&mut RigidBody>,
        Option<&mut RigidBody>,
    ))
        requires
            old(self).bodies.wf(),
        ensures
            final(self).bodies.wf(),
            final(self).bodies.slots@.len() == old(self).bodies.slots@.len(),
            r.0 is Some <==> old(self).bodies.valid(handle1.0),
            r.1 is Some <==> (old(self).bodies.valid(handle2.0) && handle1.0.index
                != handle2.0.index),
            r.0 is Some ==> *r.0->0 == old(self).bodies.at(handle1.0),
            r.1 is Some ==> *r.1->0 == old(self).bodies.at(handle2.0),
            forall|j: int|
                0 <= j < old(self).bodies.slots@.len() ==> final(self).bodies.slots@[j] == (if r.0
                    is Some && j == handle1.0.index {
                    (Slot {
                        generation: handle1.0.generation,
                        value: Some(*final(r.0.unwrap())),
                    })
                } else if r.1 is Some && j == handle2.0.index {
                    (Slot {
                        generation: handle2.0.generation,
                        value: Some(*final(r.1.unwrap())),
                    })
                } else {
                    old(self).bodies.slots@[j]
                }),
    {
        self.bodies.get2_mut(handle1.0, handle2.0)
    }

    /// The handles of the stored bodies, in slot order.
    pub fn handles(&self) -> (r: Vec<RigidBodyHandle>)
        ensures
            r@.len() == crate::arena::handles_upto(
                self.bodies.slots@,
                self.bodies.slots@.len() as int,
            ).len(),
            forall|i: int|
                0 <= i < r@.len() ==> r@[i] == RigidBodyHandle(
                    crate::arena::handles_upto(
                        self.bodies.slots@,
                        self.bodies.slots@.len() as int,
                    )[i],
                ),
    {
        let hs: Vec<Handle> = self.bodies.handles();
        let mut r: Vec<RigidBodyHandle> = Vec::new();
        let mut i: usize = 0;
        let n: usize = hs.len();
        while i < n
            invariant
                0 <= i <= n,
                n == hs@.len(),
                r@.len() == i,
                forall|j: int| 0 <= j < i ==> r@[j] == RigidBodyHandle(hs@[j]),
            decreases n - i,
        {
            r.push(RigidBodyHandle(hs[i]));
            i = i + 1;
        }
        r
    }

    /// Number of stored bodies.
    pub fn len(&self) -> (r: usize)
        ensures
            r == occ(self.bodies.slots@),
    {
        self.bodies.len()
    }

    /// Whether no body is stored.
    pub fn is_empty(&self) -> (r: bool)
        ensures
            r <==> occ(self.bodies.slots@) == 0,
    {
        self.bodies.is_empty()
    }
}

} // verus!
