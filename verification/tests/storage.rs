//! Handle-indexed storage: stable handles, stale-handle invalidation across
//! slot reuse, paired mutable access, and the cascade removals.

use crate2d::body::RigidBody;
use crate2d::collider::{Collider, ColliderShape};
use crate2d::force::{ForceGenerator, ForceGeneratorSet, ForceRegistry, Gravity};
use crate2d::geometry::Circle;
use crate2d::sets::{ColliderSet, RigidBodySet};
use crate2d::vec2::Vec2;

fn fx(v: f64) -> i64 {
    (v * 65536.0).round() as i64
}

fn vec(x: f64, y: f64) -> Vec2 {
    Vec2 { x: fx(x), y: fx(y) }
}

fn circle_collider(radius: f64) -> Collider {
    Collider::new(ColliderShape::Circle(Circle { center: vec(0.0, 0.0), radius: fx(radius) }))
}

#[test]
fn handle_reuse_does_not_alias() {
    let mut bodies = RigidBodySet::new();
    let mut colliders = ColliderSet::new();
    let mut registry = ForceRegistry::new();

    let old_handle = bodies.insert(RigidBody::new(vec(1.0, 1.0), 0));
    assert!(bodies.get(old_handle).is_some());
    let removed = bodies.remove(old_handle, &mut colliders, &mut registry);
    assert!(removed.is_some());
    assert!(bodies.get(old_handle).is_none());

    // the freed slot is reused, but the stale handle must not resolve to
    // the new body's data
    let new_handle = bodies.insert(RigidBody::new(vec(9.0, 9.0), 0));
    assert_eq!(new_handle.0.index, old_handle.0.index);
    assert_ne!(new_handle, old_handle);
    assert!(bodies.get(old_handle).is_none());
    assert_eq!(bodies.get(new_handle).unwrap().position, vec(9.0, 9.0));
}

#[test]
fn removing_twice_removes_once() {
    let mut bodies = RigidBodySet::new();
    let mut colliders = ColliderSet::new();
    let mut registry = ForceRegistry::new();
    let h = bodies.insert(RigidBody::new(vec(0.0, 0.0), 0));
    assert!(bodies.remove(h, &mut colliders, &mut registry).is_some());
    assert!(bodies.remove(h, &mut colliders, &mut registry).is_none());
    assert_eq!(bodies.len(), 0);
}

#[test]
fn get2_mut_same_handle_populates_only_first() {
    let mut bodies = RigidBodySet::new();
    let h = bodies.insert(RigidBody::new(vec(0.0, 0.0), 0));
    let (first, second) = bodies.get2_mut(h, h);
    assert!(first.is_some());
    assert!(second.is_none());
}

#[test]
fn get2_mut_distinct_handles_mutate_both() {
    let mut bodies = RigidBodySet::new();
    let h1 = bodies.insert(RigidBody::new(vec(0.0, 0.0), 0));
    let h2 = bodies.insert(RigidBody::new(vec(5.0, 0.0), 0));
    {
        let (first, second) = bodies.get2_mut(h1, h2);
        let b1 = first.expect("first body");
        let b2 = second.expect("second body");
        b1.linear_velocity = vec(1.0, 0.0);
        b2.linear_velocity = vec(-1.0, 0.0);
    }
    assert_eq!(bodies.get(h1).unwrap().linear_velocity, vec(1.0, 0.0));
    assert_eq!(bodies.get(h2).unwrap().linear_velocity, vec(-1.0, 0.0));
}

#[test]
fn insert_with_parent_links_both_sides() {
    let mut bodies = RigidBodySet::new();
    let mut colliders = ColliderSet::new();
    let body_handle = bodies.insert(RigidBody::new(vec(4.0, 7.0), 0));
    let collider_handle = colliders.insert_with_parent(
        circle_collider(1.25),
        body_handle,
        &mut bodies,
    );
    let collider = colliders.get(collider_handle).expect("stored collider");
    assert_eq!(collider.parent, Some(body_handle));
    // the collider is synced to the body position at insertion
    match collider.shape {
        ColliderShape::Circle(c) => assert_eq!(c.center, vec(4.0, 7.0)),
        _ => panic!("expected a circle"),
    }
    assert_eq!(bodies.get(body_handle).unwrap().collider, Some(collider_handle));
}

#[test]
fn removing_collider_clears_body_backlink() {
    let mut bodies = RigidBodySet::new();
    let mut colliders = ColliderSet::new();
    let body_handle = bodies.insert(RigidBody::new(vec(0.0, 0.0), 0));
    let collider_handle = colliders.insert_with_parent(
        circle_collider(1.0),
        body_handle,
        &mut bodies,
    );
    let removed = colliders.remove(collider_handle, &mut bodies);
    assert!(removed.is_some());
    assert_eq!(bodies.get(body_handle).unwrap().collider, None);
}

#[test]
fn removing_body_detaches_collider_and_registrations() {
    let mut bodies = RigidBodySet::new();
    let mut colliders = ColliderSet::new();
    let mut registry = ForceRegistry::new();
    let mut generators = ForceGeneratorSet::new();

    let gravity = generators.insert(ForceGenerator::Gravity(Gravity::new(vec(0.0, -10.0))));
    let body_handle = bodies.insert(RigidBody::new(vec(0.0, 0.0), 0));
    let collider_handle = colliders.insert_with_parent(
        circle_collider(1.0),
        body_handle,
        &mut bodies,
    );
    let registration = registry.insert(body_handle, gravity);
    {
        let body = bodies.get_mut(body_handle).expect("stored body");
        body.force_registrations.push(registration);
    }

    let removed = bodies.remove(body_handle, &mut colliders, &mut registry);
    assert!(removed.is_some());
    assert_eq!(colliders.get(collider_handle).unwrap().parent, None);
    assert!(registry.remove(registration).is_none());
}

#[test]
fn registry_clear_invalidates_all_registrations() {
    let mut registry = ForceRegistry::new();
    let mut generators = ForceGeneratorSet::new();
    let mut bodies = RigidBodySet::new();
    let g = generators.insert(ForceGenerator::Gravity(Gravity::new(vec(0.0, -1.0))));
    let b = bodies.insert(RigidBody::new(vec(0.0, 0.0), 0));
    let r1 = registry.insert(b, g);
    let r2 = registry.insert(b, g);
    registry.clear();
    assert!(registry.remove(r1).is_none());
    assert!(registry.remove(r2).is_none());
}

#[test]
fn set_mass_tracks_inverse_mass() {
    let mut body = RigidBody::new(vec(0.0, 0.0), 0);
    assert_eq!(body.mass(), 0);
    assert_eq!(body.inv_mass(), 0);
    assert!(body.has_infinite_mass());

    body.set_mass(fx(1.0));
    assert_eq!(body.inv_mass(), fx(1.0));
    body.set_mass(fx(2.0));
    assert_eq!(body.inv_mass(), fx(0.5));
    body.set_mass(0);
    assert_eq!(body.inv_mass(), 0);
}

#[test]
fn collider_set_len_counts_stored() {
    let mut colliders = ColliderSet::new();
    let mut bodies = RigidBodySet::new();
    assert!(colliders.is_empty());
    let h1 = colliders.insert(circle_collider(1.0));
    let _h2 = colliders.insert(circle_collider(2.0));
    assert_eq!(colliders.len(), 2);
    colliders.remove(h1, &mut bodies);
    assert_eq!(colliders.len(), 1);
    assert!(!colliders.is_empty());
}

#[test]
fn collider_updates_position_and_rotation() {
    let mut collider = Collider::new(ColliderShape::Box2D(crate2d::geometry::Box2D {
        min: vec(0.0, 0.0),
        max: vec(2.0, 2.0),
        rotation: crate2d::vec2::Rot2 { c: 65536, s: 0 },
    }));
    collider.update_position(vec(5.0, 5.0));
    assert_eq!(collider.shape.center(), vec(5.0, 5.0));

    let quarter = crate2d::vec2::Rot2 { c: 0, s: 65536 };
    collider.update_rotation(quarter);
    match collider.shape {
        ColliderShape::Box2D(b) => assert_eq!(b.rotation, quarter),
        _ => panic!("expected a box"),
    }

    let mut bodies = RigidBodySet::new();
    let owner = bodies.insert(RigidBody::new(vec(0.0, 0.0), 0));
    collider.set_parent(owner);
    assert_eq!(collider.parent, Some(owner));
}

#[test]
fn generator_set_stores_and_applies_gravity() {
    let mut generators = ForceGeneratorSet::new();
    assert!(generators.is_empty());
    let g = generators.insert(ForceGenerator::Gravity(Gravity::new(vec(0.0, -10.0))));
    assert_eq!(generators.len(), 1);

    let mut body = RigidBody::new(vec(0.0, 0.0), 0);
    body.set_mass(fx(2.0));
    generators.get(g).unwrap().update_force(&mut body, fx(1.0 / 60.0));
    // gravity scales with the body's mass
    assert_eq!(body.force_accumulator, vec(0.0, -20.0));

    assert!(generators.remove(g).is_some());
    assert!(generators.get(g).is_none());
    assert!(generators.is_empty());
}

#[test]
fn body_set_handles_walk_stored_bodies() {
    let mut bodies = RigidBodySet::new();
    let mut colliders = ColliderSet::new();
    let mut registry = ForceRegistry::new();
    let h1 = bodies.insert(RigidBody::new(vec(1.0, 0.0), 0));
    let h2 = bodies.insert(RigidBody::new(vec(2.0, 0.0), 0));
    let h3 = bodies.insert(RigidBody::new(vec(3.0, 0.0), 0));
    bodies.remove(h2, &mut colliders, &mut registry);
    let handles = bodies.handles();
    assert_eq!(handles, vec![h1, h3]);
    assert_eq!(bodies.get(h1).unwrap().transform().position, vec(1.0, 0.0));
}
