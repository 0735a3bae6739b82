//! Raycast queries against circles and boxes.

use crate2d::collider::{Collider2D, ColliderShape};
use crate2d::geometry::{Aabb, Box2D, Circle, Ray2D};
use crate2d::queries::{raycast, raycast_aabb, raycast_box2d, raycast_circle, raycast_shape};
use crate2d::vec2::{Rot2, Vec2};

fn fx(v: f64) -> i64 {
    (v * 65536.0).round() as i64
}

fn vec(x: f64, y: f64) -> Vec2 {
    Vec2 { x: fx(x), y: fx(y) }
}

fn rot(angle: f64) -> Rot2 {
    Rot2 { c: fx(angle.cos()), s: fx(angle.sin()) }
}

#[test]
fn ray_hits_circle_head_on() {
    let ray = Ray2D::new(vec(0.0, 0.0), vec(1.0, 0.0));
    let circle = Circle { center: vec(10.0, 0.0), radius: fx(2.0) };
    let hit = raycast_circle(ray, circle).expect("the ray points at the circle");
    // entry point at the near surface, eight units out (within truncation)
    assert!((hit.t - fx(8.0)).abs() <= 8);
    assert!((hit.point.x - fx(8.0)).abs() <= 8);
    assert!(hit.point.y.abs() <= 8);
    // surface normal points back toward the origin
    assert!(hit.normal.x < 0);
}

#[test]
fn ray_misses_circle() {
    let ray = Ray2D::new(vec(0.0, 0.0), vec(1.0, 0.0));
    let circle = Circle { center: vec(10.0, 10.0), radius: fx(2.0) };
    assert!(raycast_circle(ray, circle).is_none());
}

#[test]
fn ray_hits_aabb() {
    // a diagonal ray into the box corner (an axis-parallel ray would fall
    // into the zero-step convention of the slab test and miss)
    let ray = Ray2D::new(vec(-2.0, -2.0), vec(1.0, 1.0));
    let aabb = Aabb { min: vec(0.0, 0.0), max: vec(4.0, 4.0) };
    let hit = raycast_aabb(ray, aabb).expect("the ray points at the box");
    // entry at the corner, two root-two units out (within truncation)
    assert!((hit.t - fx(2.828)).abs() <= 64);
    assert!(hit.point.x.abs() <= 64);
    assert!(hit.point.y.abs() <= 64);
}

#[test]
fn ray_behind_aabb_misses() {
    let ray = Ray2D::new(vec(10.0, 1.0), vec(1.0, 0.0));
    let aabb = Aabb { min: vec(0.0, 0.0), max: vec(4.0, 4.0) };
    assert!(raycast_aabb(ray, aabb).is_none());
}

#[test]
fn ray_hits_rotated_box() {
    let ray = Ray2D::new(vec(-6.0, 2.0), vec(1.0, 0.0));
    let box2d = Box2D {
        min: vec(0.0, 0.0),
        max: vec(4.0, 4.0),
        rotation: rot(std::f64::consts::PI / 4.0),
    };
    let hit = raycast_box2d(ray, box2d).expect("the ray points at the rotated box");
    assert!(hit.t > 0);
}

#[test]
fn raycast_dispatchers_agree_with_direct_casts() {
    let ray = Ray2D::new(vec(-5.0, 1.0), vec(1.0, 0.0));
    let circle = Circle { center: vec(10.0, 1.0), radius: fx(2.0) };
    let aabb = Aabb { min: vec(0.0, 0.0), max: vec(4.0, 4.0) };
    let obb = Box2D { min: vec(0.0, 0.0), max: vec(4.0, 4.0), rotation: rot(0.25) };

    assert_eq!(
        raycast_shape(ray, ColliderShape::Circle(circle)),
        raycast_circle(ray, circle),
    );
    assert_eq!(
        raycast_shape(ray, ColliderShape::Box2D(obb)),
        raycast_box2d(ray, obb),
    );
    assert_eq!(raycast(ray, Collider2D::Circle(circle)), raycast_circle(ray, circle));
    assert_eq!(raycast(ray, Collider2D::Aabb(aabb)), raycast_aabb(ray, aabb));
    assert_eq!(raycast(ray, Collider2D::Obb(obb)), raycast_box2d(ray, obb));
}
