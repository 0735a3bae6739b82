//! Geometry primitives: measurements, intervals, the boolean shape tests,
//! and the axis-aligned manifold helpers.

use crate2d::algo::{
    aabb_aabb, aabb_aabb_test, aabb_and_aabb, aabb_and_obb, circle_and_aabb, circle_and_circle,
    circle_and_obb, find_aabb_aabb_collision_features, find_aabb_circle_collision_features,
    find_box2d_box2d_collision_features, find_box2d_circle_collision_features,
    find_circle_circle_collision_features, get_interval, obb_and_obb,
};
use crate2d::geometry::{Aabb, Box2D, Circle, Convex, Line2D, Transform};
use crate2d::vec2::{Rot2, Vec2};

fn fx(v: f64) -> i64 {
    (v * 65536.0).round() as i64
}

fn vec(x: f64, y: f64) -> Vec2 {
    Vec2 { x: fx(x), y: fx(y) }
}

fn rot(angle: f64) -> Rot2 {
    Rot2 { c: fx(angle.cos()), s: fx(angle.sin()) }
}

#[test]
fn rect_measurements() {
    let aabb = Aabb { min: vec(1.0, 2.0), max: vec(5.0, 8.0) };
    assert_eq!(aabb.size(), vec(4.0, 6.0));
    assert_eq!(aabb.half_size(), vec(2.0, 3.0));
    assert_eq!(aabb.center(), vec(3.0, 5.0));

    let from_center = Aabb::from_center_and_half_size(vec(3.0, 5.0), vec(2.0, 3.0));
    assert_eq!(from_center, aabb);

    let mut moved = aabb;
    moved.set_center(vec(0.0, 0.0));
    assert_eq!(moved.min, vec(-2.0, -3.0));
    assert_eq!(moved.max, vec(2.0, 3.0));
}

#[test]
fn line_measurements() {
    let line = Line2D { start: vec(1.0, 1.0), end: vec(4.0, 5.0) };
    assert_eq!(line.to_vec2(), vec(3.0, 4.0));
    assert_eq!(line.length(), fx(5.0));
    assert_eq!(line.length_squared(), fx(25.0));
    let dir = line.direction();
    // the three-four-five triangle normalizes to (0.6, 0.8), rounded down
    assert!((dir.x - fx(0.6)).abs() <= 1);
    assert!((dir.y - fx(0.8)).abs() <= 1);
}

#[test]
fn transform_constructors() {
    let t = Transform::from_position(vec(2.0, 3.0));
    assert_eq!(t.position, vec(2.0, 3.0));
    assert_eq!(t.rotation, 0);
    let r = Transform::from_rotation(fx(1.5));
    assert_eq!(r.position, vec(0.0, 0.0));
    assert_eq!(r.rotation, fx(1.5));
    assert_eq!(Transform::default(), Transform::from_position(vec(0.0, 0.0)));
}

#[test]
fn box_vertices_rotate_about_center() {
    let b = Box2D {
        min: vec(-1.0, -1.0),
        max: vec(1.0, 1.0),
        rotation: rot(std::f64::consts::PI / 2.0),
    };
    let vs = b.get_vertices();
    // a quarter turn maps each corner onto a neighboring one (within
    // truncation)
    for v in vs.iter() {
        assert!((v.x.abs() - fx(1.0)).abs() <= 4);
        assert!((v.y.abs() - fx(1.0)).abs() <= 4);
    }
}

#[test]
fn interval_projects_corners() {
    let aabb = Aabb { min: vec(1.0, 2.0), max: vec(3.0, 6.0) };
    let x_axis = Vec2 { x: fx(1.0), y: 0 };
    let iv = get_interval(&aabb, x_axis);
    assert_eq!(iv.x, fx(1.0));
    assert_eq!(iv.y, fx(3.0));
    let y_axis = Vec2 { x: 0, y: fx(1.0) };
    let iv = get_interval(&aabb, y_axis);
    assert_eq!(iv.x, fx(2.0));
    assert_eq!(iv.y, fx(6.0));
}

#[test]
fn boolean_shape_tests() {
    let c1 = Circle { center: vec(0.0, 0.0), radius: fx(2.0) };
    let c2 = Circle { center: vec(3.0, 0.0), radius: fx(2.0) };
    let c3 = Circle { center: vec(10.0, 0.0), radius: fx(2.0) };
    assert!(circle_and_circle(c1, c2));
    assert!(!circle_and_circle(c1, c3));

    let aabb = Aabb { min: vec(1.0, -1.0), max: vec(4.0, 1.0) };
    assert!(circle_and_aabb(c1, aabb));
    assert!(!circle_and_aabb(c3, Aabb { min: vec(0.0, 0.0), max: vec(1.0, 1.0) }));

    let obb = Box2D {
        min: vec(1.0, -1.0),
        max: vec(4.0, 1.0),
        rotation: rot(std::f64::consts::PI / 4.0),
    };
    assert!(circle_and_obb(c1, obb));

    let r1 = Aabb { min: vec(0.0, 0.0), max: vec(2.0, 2.0) };
    let r2 = Aabb { min: vec(1.0, 1.0), max: vec(3.0, 3.0) };
    let r3 = Aabb { min: vec(5.0, 5.0), max: vec(6.0, 6.0) };
    assert!(aabb_and_aabb(r1, r2));
    assert!(!aabb_and_aabb(r1, r3));

    let o1 = Box2D { min: vec(1.0, 1.0), max: vec(3.0, 3.0), rotation: rot(0.5) };
    assert!(aabb_and_obb(r1, o1));
    let far = Box2D { min: vec(8.0, 8.0), max: vec(9.0, 9.0), rotation: rot(0.5) };
    assert!(!aabb_and_obb(r1, far));

    let o2 = Box2D { min: vec(2.0, 2.0), max: vec(4.0, 4.0), rotation: rot(0.8) };
    assert!(obb_and_obb(o1, o2));
    assert!(!obb_and_obb(o1, far));
}

#[test]
fn aabb_pair_manifold_picks_smallest_face_distance() {
    let b1 = Aabb { min: vec(0.0, 0.0), max: vec(4.0, 4.0) };
    let b2 = Aabb { min: vec(3.0, 1.0), max: vec(7.0, 3.0) };
    assert!(aabb_aabb_test(b1, b2));
    let m = aabb_aabb(b1, b2).expect("overlapping boxes collide");
    // the right face of the first box is the shallowest axis
    assert_eq!(m.normal, vec(1.0, 0.0));
    assert_eq!(m.depth, fx(1.0));

    let apart = Aabb { min: vec(9.0, 0.0), max: vec(10.0, 1.0) };
    assert!(!aabb_aabb_test(b1, apart));
    assert!(aabb_aabb(b1, apart).is_none());
}

#[test]
fn dynamics_aliases_agree_with_narrow_phase() {
    let c1 = Circle { center: vec(0.0, 0.0), radius: fx(1.0) };
    let c2 = Circle { center: vec(1.5, 0.0), radius: fx(1.0) };
    assert_eq!(
        find_circle_circle_collision_features(c1, c2),
        crate2d::algo::circle_circle(c1, c2),
    );

    let aabb = Aabb { min: vec(0.0, 0.0), max: vec(2.0, 2.0) };
    assert_eq!(
        find_aabb_circle_collision_features(aabb, c2),
        crate2d::algo::find_aabb_circle_collision_features(aabb, c2),
    );

    let b = Box2D { min: vec(0.0, 0.0), max: vec(2.0, 2.0), rotation: rot(0.3) };
    assert_eq!(
        find_box2d_circle_collision_features(b, c2),
        crate2d::algo::box2d_circle(b, c2),
    );

    let b2 = Box2D { min: vec(1.0, 1.0), max: vec(3.0, 3.0), rotation: rot(0.0) };
    assert_eq!(
        find_box2d_box2d_collision_features(b, b2),
        crate2d::algo::box2d_box2d(b, b2),
    );

    let r2 = Aabb { min: vec(1.0, 1.0), max: vec(3.0, 3.0) };
    assert_eq!(find_aabb_aabb_collision_features(aabb, r2), aabb_aabb(aabb, r2));
}

#[test]
fn conversions_between_box_kinds() {
    let b = Box2D { min: vec(1.0, 2.0), max: vec(3.0, 4.0), rotation: rot(0.7) };
    let aabb = Aabb::from(b);
    assert_eq!(aabb.min, b.min);
    assert_eq!(aabb.max, b.max);
    let back = Box2D::from(aabb);
    assert_eq!(back.min, b.min);
    assert_eq!(back.rotation, Rot2 { c: 65536, s: 0 });
}
