//! Point containment queries, over the fixed-point scalar (one whole unit
//! is 65536 raw units).

use crate2d::geometry::{Aabb, Box2D, Circle, Line2D};
use crate2d::queries::{
    is_point_in_aabb, is_point_in_box2d, is_point_in_circle, is_point_in_obb, is_point_on_line,
    is_point_on_line_2d,
};
use crate2d::vec2::{Rot2, Vec2};

fn fx(v: f64) -> i64 {
    (v * 65536.0).round() as i64
}

fn vec(x: f64, y: f64) -> Vec2 {
    Vec2 { x: fx(x), y: fx(y) }
}

fn rot(angle: f64) -> Rot2 {
    Rot2 { c: fx(angle.cos()), s: fx(angle.sin()) }
}

#[test]
fn test_is_point_on_line_2d() {
    let point = vec(1.0, 2.0);
    let line = Line2D { start: vec(0.0, 0.0), end: vec(2.0, 4.0) };
    assert!(is_point_on_line_2d(point, line));

    let point = vec(3.0, 5.0);
    assert!(!is_point_on_line_2d(point, line));

    let point = vec(0.0, 4.0);
    let line = Line2D { start: vec(0.0, 0.0), end: vec(0.0, 4.0) };
    assert!(is_point_on_line_2d(point, line));
}

#[test]
fn point_test_is_point_in_circle() {
    let point = vec(1.0, 2.0);
    let circle = Circle { center: vec(0.0, 0.0), radius: fx(2.0) };
    assert!(!is_point_in_circle(point, circle));

    let point = vec(0.0, 1.0);
    assert!(is_point_in_circle(point, circle));
}

#[test]
fn point_test_is_point_in_aabb() {
    let point = vec(1.0, 2.0);
    let rect = Aabb { min: vec(0.0, 0.0), max: vec(2.0, 2.0) };
    assert!(is_point_in_aabb(point, rect));

    let point = vec(3.0, 5.0);
    assert!(!is_point_in_aabb(point, rect));
}

#[test]
fn point_test_is_point_in_obb() {
    let point = vec(0.2, 3.8);
    let obb = Box2D { min: vec(0.0, 0.0), max: vec(4.0, 4.0), rotation: rot(0.0) };
    assert!(is_point_in_obb(point, obb));

    let rotated = Box2D { min: obb.min, max: obb.max, rotation: rot(45.0) };
    assert!(!is_point_in_obb(point, rotated));

    let point = vec(3.0, 5.0);
    assert!(!is_point_in_obb(point, obb));
}

#[test]
fn algo_test_is_point_on_line() {
    let point = vec(1.0, 2.0);
    let line = Line2D { start: vec(0.0, 0.0), end: vec(2.0, 4.0) };
    assert!(is_point_on_line(point, line));

    let point = vec(3.0, 5.0);
    assert!(!is_point_on_line(point, line));

    let point = vec(0.0, 4.0);
    let line = Line2D { start: vec(0.0, 0.0), end: vec(0.0, 4.0) };
    assert!(is_point_on_line(point, line));
}

#[test]
fn algo_test_is_point_in_circle() {
    let point = vec(1.0, 2.0);
    let circle = Circle { center: vec(0.0, 0.0), radius: fx(2.0) };
    assert!(!is_point_in_circle(point, circle));

    let point = vec(0.0, 1.0);
    assert!(is_point_in_circle(point, circle));
}

#[test]
fn algo_test_is_point_in_aabb() {
    let point = vec(1.0, 2.0);
    let aabb = Aabb { min: vec(0.0, 0.0), max: vec(2.0, 2.0) };
    assert!(is_point_in_aabb(point, aabb));

    let point = vec(3.0, 5.0);
    assert!(!is_point_in_aabb(point, aabb));
}

#[test]
fn test_is_point_in_box2d() {
    let point = vec(1.2, 4.8);
    let box2d = Box2D { min: vec(1.0, 1.0), max: vec(5.0, 5.0), rotation: rot(0.0) };
    assert!(is_point_in_box2d(point, box2d));

    let rotated = Box2D {
        min: box2d.min,
        max: box2d.max,
        rotation: rot(std::f64::consts::PI / 4.0),
    };
    assert!(!is_point_in_box2d(point, rotated));

    let point = vec(5.0, 8.0);
    assert!(!is_point_in_box2d(point, box2d));
}

#[test]
fn algo_2d_test_is_point_on_line() {
    let point = vec(1.0, 2.0);
    let line = Line2D { start: vec(0.0, 0.0), end: vec(2.0, 4.0) };
    assert!(is_point_on_line(point, line));

    let point = vec(3.0, 5.0);
    assert!(!is_point_on_line(point, line));

    let point = vec(0.0, 4.0);
    let line = Line2D { start: vec(0.0, 0.0), end: vec(0.0, 4.0) };
    assert!(is_point_on_line(point, line));
}

#[test]
fn algo_2d_test_is_point_in_circle() {
    let point = vec(1.0, 2.0);
    let circle = Circle { center: vec(0.0, 0.0), radius: fx(2.0) };
    assert!(!is_point_in_circle(point, circle));

    let point = vec(0.0, 1.0);
    assert!(is_point_in_circle(point, circle));
}

#[test]
fn algo_2d_test_is_point_in_aabb() {
    let point = vec(1.0, 2.0);
    let aabb = Aabb { min: vec(0.0, 0.0), max: vec(2.0, 2.0) };
    assert!(is_point_in_aabb(point, aabb));

    let point = vec(3.0, 5.0);
    assert!(!is_point_in_aabb(point, aabb));
}

#[test]
fn algo_2d_test_is_point_in_obb() {
    let point = vec(0.2, 3.8);
    let obb = Box2D { min: vec(0.0, 0.0), max: vec(4.0, 4.0), rotation: rot(0.0) };
    assert!(is_point_in_obb(point, obb));

    let rotated = Box2D {
        min: obb.min,
        max: obb.max,
        rotation: rot(std::f64::consts::PI / 4.0),
    };
    assert!(!is_point_in_obb(point, rotated));

    let point = vec(3.0, 5.0);
    assert!(!is_point_in_obb(point, obb));
}
