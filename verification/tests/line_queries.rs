//! Segment intersection queries against circles and boxes.

use crate2d::geometry::{Aabb, Box2D, Circle, Line2D};
use crate2d::queries::{
    is_line_2d_intersecting_aabb, is_line_2d_intersecting_circle, is_line_2d_intersecting_obb,
    line_aabb, line_and_aabb, line_and_circle, line_and_obb, line_box2d, line_circle,
};
use crate2d::vec2::{Rot2, Vec2};

fn fx(v: f64) -> i64 {
    (v * 65536.0).round() as i64
}

fn vec(x: f64, y: f64) -> Vec2 {
    Vec2 { x: fx(x), y: fx(y) }
}

fn rot(angle: f64) -> Rot2 {
    Rot2 { c: fx(angle.cos()), s: fx(angle.sin()) }
}

fn test_circle() -> Circle {
    Circle { center: vec(5.0, 5.0), radius: fx(3.0) }
}

#[test]
fn line_intersects_circle() {
    let line = Line2D { start: vec(3.0, -2.0), end: vec(5.0, 3.0) };
    assert!(line_circle(line, test_circle()));
}

#[test]
fn line_does_not_intersect_circle() {
    let line = Line2D { start: vec(3.0, -2.0), end: vec(10.0, 4.0) };
    assert!(!line_circle(line, test_circle()));
}

#[test]
fn line_inside_circle_intersects_it() {
    let point_inside = vec(3.0, 4.0);
    let point_outside = vec(10.0, 5.0);
    let start_inside = Line2D { start: point_inside, end: point_outside };
    assert!(line_circle(start_inside, test_circle()));
    let end_inside = Line2D { start: point_outside, end: point_inside };
    assert!(line_circle(end_inside, test_circle()));
}

#[test]
fn line_intersects_aabb() {
    let line = Line2D { start: vec(3.0, -2.0), end: vec(11.0, 4.0) };
    let aabb = Aabb { min: vec(0.0, 0.0), max: vec(8.0, 8.0) };
    assert!(line_aabb(line, aabb));
}

#[test]
fn line_does_not_intersect_aabb() {
    let line = Line2D { start: vec(3.0, -2.0), end: vec(11.0, 0.0) };
    let aabb = Aabb { min: vec(0.0, 0.0), max: vec(8.0, 8.0) };
    assert!(!line_aabb(line, aabb));
}

#[test]
fn line_inside_aabb_intersects_it() {
    let point_inside = vec(3.0, 5.0);
    let point_outside = vec(12.0, 4.0);
    let aabb = Aabb { min: vec(0.0, 0.0), max: vec(8.0, 8.0) };
    let start_inside = Line2D { start: point_inside, end: point_outside };
    assert!(line_aabb(start_inside, aabb));
    let end_inside = Line2D { start: point_outside, end: point_inside };
    assert!(line_aabb(end_inside, aabb));
}

#[test]
fn line_intersects_box2d_before_rotation_and_doesnt_after_rotation() {
    let line = Line2D { start: vec(-0.2, 6.0), end: vec(0.5, 9.0) };
    let box2d = Box2D { min: vec(0.0, 0.0), max: vec(8.0, 8.0), rotation: rot(0.0) };
    assert!(line_box2d(line, box2d));
    let rotated = Box2D {
        min: box2d.min,
        max: box2d.max,
        rotation: rot(std::f64::consts::PI / 4.0),
    };
    assert!(!line_box2d(line, rotated));
}

#[test]
fn line_2d_line_intersects_circle() {
    let line = Line2D { start: vec(3.0, -2.0), end: vec(5.0, 3.0) };
    assert!(is_line_2d_intersecting_circle(line, test_circle()));
}

#[test]
fn line_2d_line_does_not_intersect_circle() {
    let line = Line2D { start: vec(3.0, -2.0), end: vec(10.0, 4.0) };
    assert!(!is_line_2d_intersecting_circle(line, test_circle()));
}

#[test]
fn line_2d_line_inside_circle_intersects_it() {
    let point_inside = vec(3.0, 4.0);
    let point_outside = vec(10.0, 5.0);
    let start_inside = Line2D { start: point_inside, end: point_outside };
    assert!(is_line_2d_intersecting_circle(start_inside, test_circle()));
    let end_inside = Line2D { start: point_outside, end: point_inside };
    assert!(is_line_2d_intersecting_circle(end_inside, test_circle()));
}

#[test]
fn line_intersects_rect() {
    let line = Line2D { start: vec(3.0, -2.0), end: vec(11.0, 4.0) };
    let rect = Aabb { min: vec(0.0, 0.0), max: vec(8.0, 8.0) };
    assert!(is_line_2d_intersecting_aabb(line, rect));
}

#[test]
fn line_does_not_intersect_rect() {
    let line = Line2D { start: vec(3.0, -2.0), end: vec(11.0, 0.0) };
    let rect = Aabb { min: vec(0.0, 0.0), max: vec(8.0, 8.0) };
    assert!(!is_line_2d_intersecting_aabb(line, rect));
}

#[test]
fn line_inside_rect_intersects_it() {
    let point_inside = vec(3.0, 5.0);
    let point_outside = vec(12.0, 4.0);
    let rect = Aabb { min: vec(0.0, 0.0), max: vec(8.0, 8.0) };
    let start_inside = Line2D { start: point_inside, end: point_outside };
    assert!(is_line_2d_intersecting_aabb(start_inside, rect));
    let end_inside = Line2D { start: point_outside, end: point_inside };
    assert!(is_line_2d_intersecting_aabb(end_inside, rect));
}

#[test]
fn line_intersects_obb_when_not_rotated_and_doesnt_when_rotated() {
    let line = Line2D { start: vec(-0.2, 6.0), end: vec(0.5, 9.0) };
    let rect = Box2D { min: vec(0.0, 0.0), max: vec(8.0, 8.0), rotation: rot(0.0) };
    assert!(is_line_2d_intersecting_obb(line, rect));
    let rotated = Box2D {
        min: rect.min,
        max: rect.max,
        rotation: rot(std::f64::consts::PI / 4.0),
    };
    assert!(!is_line_2d_intersecting_obb(line, rotated));
}

#[test]
fn algo_2d_line_intersects_circle() {
    let line = Line2D { start: vec(3.0, -2.0), end: vec(5.0, 3.0) };
    assert!(line_and_circle(line, test_circle()));
}

#[test]
fn algo_2d_line_does_not_intersect_circle() {
    let line = Line2D { start: vec(3.0, -2.0), end: vec(10.0, 4.0) };
    assert!(!line_and_circle(line, test_circle()));
}

#[test]
fn algo_2d_line_inside_circle_intersects_it() {
    let point_inside = vec(3.0, 4.0);
    let point_outside = vec(10.0, 5.0);
    let start_inside = Line2D { start: point_inside, end: point_outside };
    assert!(line_and_circle(start_inside, test_circle()));
    let end_inside = Line2D { start: point_outside, end: point_inside };
    assert!(line_and_circle(end_inside, test_circle()));
}

#[test]
fn algo_2d_line_intersects_aabb() {
    let line = Line2D { start: vec(3.0, -2.0), end: vec(11.0, 4.0) };
    let aabb = Aabb { min: vec(0.0, 0.0), max: vec(8.0, 8.0) };
    assert!(line_and_aabb(line, aabb));
}

#[test]
fn algo_2d_line_does_not_intersect_aabb() {
    let line = Line2D { start: vec(3.0, -2.0), end: vec(11.0, 0.0) };
    let aabb = Aabb { min: vec(0.0, 0.0), max: vec(8.0, 8.0) };
    assert!(!line_and_aabb(line, aabb));
}

#[test]
fn algo_2d_line_inside_aabb_intersects_it() {
    let point_inside = vec(3.0, 5.0);
    let point_outside = vec(12.0, 4.0);
    let aabb = Aabb { min: vec(0.0, 0.0), max: vec(8.0, 8.0) };
    let start_inside = Line2D { start: point_inside, end: point_outside };
    assert!(line_and_aabb(start_inside, aabb));
    let end_inside = Line2D { start: point_outside, end: point_inside };
    assert!(line_and_aabb(end_inside, aabb));
}

#[test]
fn line_intersects_obb_when_before_rotation_and_doesnt_after_rotation() {
    let line = Line2D { start: vec(-0.2, 6.0), end: vec(0.5, 9.0) };
    let obb = Box2D { min: vec(0.0, 0.0), max: vec(8.0, 8.0), rotation: rot(0.0) };
    assert!(line_and_obb(line, obb));
    let rotated = Box2D {
        min: obb.min,
        max: obb.max,
        rotation: rot(std::f64::consts::PI / 4.0),
    };
    assert!(!line_and_obb(line, rotated));
}
