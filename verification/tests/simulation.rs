//! Dynamics and pipeline behavior: integration, impulse resolution,
//! momentum, and the full step scenarios.

use crate2d::algo::CollisionManifold;
use crate2d::body::RigidBody;
use crate2d::collider::{Collider, ColliderShape};
use crate2d::force::{ForceGeneratorSet, ForceRegistry};
use crate2d::geometry::Circle;
use crate2d::pipeline::{apply_impulse, PhysicsPipeline};
use crate2d::sets::{ColliderSet, RigidBodySet};
use crate2d::vec2::Vec2;
use crate2d::world::PhysicsWorld;

fn fx(v: f64) -> i64 {
    (v * 65536.0).round() as i64
}

fn vec(x: f64, y: f64) -> Vec2 {
    Vec2 { x: fx(x), y: fx(y) }
}

fn circle_collider(radius: f64) -> Collider {
    Collider::new(ColliderShape::Circle(Circle { center: vec(0.0, 0.0), radius: fx(radius) }))
}

#[test]
fn physics_update_integrates_and_syncs_collider() {
    let mut bodies = RigidBodySet::new();
    let mut colliders = ColliderSet::new();
    let h = bodies.insert(RigidBody::new(vec(0.0, 0.0), 0));
    bodies.get_mut(h).unwrap().set_mass(fx(1.0));
    let ch = colliders.insert_with_parent(circle_collider(1.0), h, &mut bodies);

    {
        let body = bodies.get_mut(h).unwrap();
        body.add_force(vec(1.0, 0.0));
        body.physics_update(fx(1.0), &mut colliders);
    }
    let body = bodies.get(h).unwrap();
    // one unit of force on one unit of mass over one second
    assert_eq!(body.linear_velocity, vec(1.0, 0.0));
    assert_eq!(body.position, vec(1.0, 0.0));
    assert_eq!(body.force_accumulator, vec(0.0, 0.0));
    match colliders.get(ch).unwrap().shape {
        ColliderShape::Circle(c) => assert_eq!(c.center, vec(1.0, 0.0)),
        _ => panic!("expected a circle"),
    }
}

#[test]
fn infinite_mass_body_never_moves() {
    let mut bodies = RigidBodySet::new();
    let mut colliders = ColliderSet::new();
    let generators = ForceGeneratorSet::new();
    let registry = ForceRegistry::new();
    let mut pipeline = PhysicsPipeline::new(fx(1.0 / 60.0));

    // an immovable wall overlapped by a moving ball
    let wall = bodies.insert(RigidBody::new(vec(0.0, 0.0), 0));
    let ball = bodies.insert(RigidBody::new(vec(1.5, 0.0), 0));
    bodies.get_mut(ball).unwrap().set_mass(fx(1.0));
    bodies.get_mut(ball).unwrap().linear_velocity = vec(-3.0, 0.0);
    colliders.insert_with_parent(circle_collider(1.0), wall, &mut bodies);
    colliders.insert_with_parent(circle_collider(1.0), ball, &mut bodies);

    for _ in 0..120 {
        pipeline.step(
            fx(1.0 / 60.0),
            vec(0.0, -9.8),
            &mut bodies,
            &mut colliders,
            &generators,
            &registry,
        );
        let b = bodies.get(wall).unwrap();
        assert_eq!(b.position, vec(0.0, 0.0));
        assert_eq!(b.linear_velocity, vec(0.0, 0.0));
    }
}

#[test]
fn resting_contact_does_not_approach() {
    // overlapping circles with zero velocity: one resolution pass must not
    // make them approach
    let mut bodies = RigidBodySet::new();
    let mut colliders = ColliderSet::new();
    let generators = ForceGeneratorSet::new();
    let registry = ForceRegistry::new();
    let mut pipeline = PhysicsPipeline::new(fx(1.0 / 60.0));

    let a = bodies.insert(RigidBody::new(vec(0.0, 0.0), 0));
    let b = bodies.insert(RigidBody::new(vec(1.5, 0.0), 0));
    bodies.get_mut(a).unwrap().set_mass(fx(1.0));
    bodies.get_mut(b).unwrap().set_mass(fx(1.0));
    colliders.insert_with_parent(circle_collider(1.0), a, &mut bodies);
    colliders.insert_with_parent(circle_collider(1.0), b, &mut bodies);

    pipeline.step(fx(1.0 / 60.0), vec(0.0, 0.0), &mut bodies, &mut colliders, &generators,
        &registry);
    assert!(pipeline.collisions.len() == 1);
    let va = bodies.get(a).unwrap().linear_velocity;
    let vb = bodies.get(b).unwrap().linear_velocity;
    // the separating component along the X axis never goes negative
    assert!(vb.x - va.x >= 0);
}

#[test]
fn equal_mass_head_on_impulse_swaps_velocities() {
    let mut b1 = RigidBody::new(vec(0.0, 0.0), 0);
    let mut b2 = RigidBody::new(vec(2.0, 0.0), 0);
    b1.set_mass(fx(1.0));
    b2.set_mass(fx(1.0));
    b1.linear_velocity = vec(1.0, 0.0);
    b2.linear_velocity = vec(-1.0, 0.0);
    let manifold = CollisionManifold {
        normal: vec(1.0, 0.0),
        contact_point_a: vec(1.0, 0.0),
        contact_point_b: vec(1.0, 0.0),
        depth: 0,
    };
    let p_before = (b1.mass as i128) * (b1.linear_velocity.x as i128) + (b2.mass as i128)
        * (b2.linear_velocity.x as i128);
    apply_impulse(&mut b1, &mut b2, &manifold);
    assert_eq!(b1.linear_velocity, vec(-1.0, 0.0));
    assert_eq!(b2.linear_velocity, vec(1.0, 0.0));
    let p_after = (b1.mass as i128) * (b1.linear_velocity.x as i128) + (b2.mass as i128)
        * (b2.linear_velocity.x as i128);
    assert_eq!(p_before, p_after);
}

#[test]
fn unequal_mass_head_on_impulse_nearly_conserves_momentum() {
    let mut b1 = RigidBody::new(vec(0.0, 0.0), 0);
    let mut b2 = RigidBody::new(vec(2.0, 0.0), 0);
    b1.set_mass(fx(5.0));
    b2.set_mass(fx(10.0));
    b1.linear_velocity = vec(2.0, 0.0);
    b2.linear_velocity = vec(-2.0, 0.0);
    let manifold = CollisionManifold {
        normal: vec(1.0, 0.0),
        contact_point_a: vec(1.0, 0.0),
        contact_point_b: vec(1.0, 0.0),
        depth: 0,
    };
    let p_before = (b1.mass as i128) * (b1.linear_velocity.x as i128) + (b2.mass as i128)
        * (b2.linear_velocity.x as i128);
    apply_impulse(&mut b1, &mut b2, &manifold);
    let p_after = (b1.mass as i128) * (b1.linear_velocity.x as i128) + (b2.mass as i128)
        * (b2.linear_velocity.x as i128);
    // the cached inverse masses and the impulse both round toward zero, so
    // momentum is conserved to within a small relative tolerance
    let scale = ((b1.mass as i128) * (b1.linear_velocity.x as i128)).abs()
        + ((b2.mass as i128) * (b2.linear_velocity.x as i128)).abs();
    assert!((p_before - p_after).abs() <= scale / 10000);
    // the bodies separate after a head-on elastic impact
    assert!(b1.linear_velocity.x < 0);
    assert!(b2.linear_velocity.x > 0);
}

#[test]
fn separating_bodies_get_no_impulse() {
    let mut b1 = RigidBody::new(vec(0.0, 0.0), 0);
    let mut b2 = RigidBody::new(vec(2.0, 0.0), 0);
    b1.set_mass(fx(1.0));
    b2.set_mass(fx(1.0));
    b1.linear_velocity = vec(-1.0, 0.0);
    b2.linear_velocity = vec(1.0, 0.0);
    let manifold = CollisionManifold {
        normal: vec(1.0, 0.0),
        contact_point_a: vec(1.0, 0.0),
        contact_point_b: vec(1.0, 0.0),
        depth: 0,
    };
    apply_impulse(&mut b1, &mut b2, &manifold);
    assert_eq!(b1.linear_velocity, vec(-1.0, 0.0));
    assert_eq!(b2.linear_velocity, vec(1.0, 0.0));
}

#[test]
fn non_colliding_pair_keeps_velocities() {
    let mut bodies = RigidBodySet::new();
    let mut colliders = ColliderSet::new();
    let generators = ForceGeneratorSet::new();
    let registry = ForceRegistry::new();
    let mut pipeline = PhysicsPipeline::new(fx(1.0 / 60.0));

    let a = bodies.insert(RigidBody::new(vec(0.0, 0.0), 0));
    let b = bodies.insert(RigidBody::new(vec(10.0, 0.0), 0));
    bodies.get_mut(a).unwrap().set_mass(fx(1.0));
    bodies.get_mut(b).unwrap().set_mass(fx(1.0));
    bodies.get_mut(a).unwrap().linear_velocity = vec(0.5, 0.25);
    bodies.get_mut(b).unwrap().linear_velocity = vec(-0.5, 0.0);
    colliders.insert_with_parent(circle_collider(1.0), a, &mut bodies);
    colliders.insert_with_parent(circle_collider(1.0), b, &mut bodies);

    pipeline.step(fx(1.0 / 60.0), vec(0.0, 0.0), &mut bodies, &mut colliders, &generators,
        &registry);
    assert!(pipeline.collisions.is_empty());
    assert_eq!(bodies.get(a).unwrap().linear_velocity, vec(0.5, 0.25));
    assert_eq!(bodies.get(b).unwrap().linear_velocity, vec(-0.5, 0.0));
}

#[test]
fn circle_circle_elastic_bounce_scenario() {
    // two circles pushed together by constant opposing forces collide,
    // separate, and never tunnel deeply into each other
    let mut bodies = RigidBodySet::new();
    let mut colliders = ColliderSet::new();
    let generators = ForceGeneratorSet::new();
    let registry = ForceRegistry::new();
    let dt = fx(1.0 / 60.0);
    let mut pipeline = PhysicsPipeline::new(dt);

    let a = bodies.insert(RigidBody::new(vec(12.0, 12.0), 0));
    let b = bodies.insert(RigidBody::new(vec(25.0, 12.0), 0));
    bodies.get_mut(a).unwrap().set_mass(fx(5.0));
    bodies.get_mut(b).unwrap().set_mass(fx(10.0));
    colliders.insert_with_parent(circle_collider(1.25), a, &mut bodies);
    colliders.insert_with_parent(circle_collider(1.25), b, &mut bodies);

    let mut collided = false;
    let mut max_depth: i64 = 0;
    let mut separated_after_collision = false;
    for _ in 0..900 {
        bodies.get_mut(a).unwrap().add_force(vec(20.0, 0.0));
        bodies.get_mut(b).unwrap().add_force(vec(-20.0, 0.0));
        pipeline.step(dt, vec(0.0, 0.0), &mut bodies, &mut colliders, &generators, &registry);
        for collision in pipeline.collisions.iter() {
            collided = true;
            if collision.manifold.depth > max_depth {
                max_depth = collision.manifold.depth;
            }
        }
        if collided {
            let va = bodies.get(a).unwrap().linear_velocity.x;
            let vb = bodies.get(b).unwrap().linear_velocity.x;
            if vb - va > 0 {
                separated_after_collision = true;
            }
        }
    }
    assert!(collided);
    assert!(separated_after_collision);
    // the overlap depth never grows beyond the radius sum
    assert!(max_depth <= fx(2.5));
}

#[test]
fn world_gravity_accelerates_bodies() {
    let mut world = PhysicsWorld::new(vec(0.0, -10.0), fx(1.0 / 60.0));
    let mut body = RigidBody::new(vec(0.0, 100.0), 0);
    body.set_mass(fx(1.0));
    let h = world.add_rigid_body(body);
    for _ in 0..60 {
        world.fixed_update();
    }
    let b = world.rigid_bodies.get(h).expect("stored body");
    // after a second of gravity the body falls
    assert!(b.linear_velocity.y < 0);
    assert!(b.position.y < fx(100.0));
    // roughly ten units per second of acquired downward speed
    assert!(b.linear_velocity.y > fx(-11.0) && b.linear_velocity.y < fx(-9.0));
}

#[test]
fn pipeline_dt_accessors() {
    let mut pipeline = PhysicsPipeline::new(fx(0.02));
    assert_eq!(pipeline.fixed_dt(), fx(0.02));
    pipeline.set_fixed_dt(fx(0.01));
    assert_eq!(pipeline.fixed_dt(), fx(0.01));
}
