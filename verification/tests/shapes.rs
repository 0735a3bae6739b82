//! Narrow-phase shape tests: manifolds, the separating-axis theorem, and
//! the symmetry of the dispatcher.

use crate2d::algo::{box2d_box2d, box2d_circle, circle_circle};
use crate2d::collider::ColliderShape;
use crate2d::geometry::{Box2D, Circle};
use crate2d::vec2::{Rot2, Vec2};

fn fx(v: f64) -> i64 {
    (v * 65536.0).round() as i64
}

fn vec(x: f64, y: f64) -> Vec2 {
    Vec2 { x: fx(x), y: fx(y) }
}

fn rot(angle: f64) -> Rot2 {
    Rot2 { c: fx(angle.cos()), s: fx(angle.sin()) }
}

#[test]
fn circle_and_box2d_collide() {
    let box2d = Box2D { min: vec(0.0, 0.0), max: vec(50.0, 50.0), rotation: rot(0.0) };
    let circle = Circle { center: vec(60.0, 60.0), radius: fx(60.0) };
    assert!(box2d_circle(box2d, circle).is_some());
    let circle = Circle { center: vec(-5.0, -5.0), radius: fx(20.0) };
    assert!(box2d_circle(box2d, circle).is_some());
    let circle = Circle { center: vec(55.0, 0.0), radius: fx(10.0) };
    assert!(box2d_circle(box2d, circle).is_some());
}

#[test]
fn circle_and_box2d_dont_collide() {
    let box2d = Box2D { min: vec(0.0, 0.0), max: vec(50.0, 50.0), rotation: rot(0.0) };
    let circle = Circle { center: vec(100.0, 100.0), radius: fx(60.0) };
    assert!(box2d_circle(box2d, circle).is_none());
    let circle = Circle { center: vec(55.0, 0.0), radius: fx(10.0) };
    let rotated = Box2D {
        min: box2d.min,
        max: box2d.max,
        rotation: rot(std::f64::consts::PI / 4.0),
    };
    assert!(box2d_circle(rotated, circle).is_none());
}

#[test]
fn circle_circle_manifold_values() {
    // unit-separated circles along the X axis: the normal is exactly the
    // positive X unit and the depth is the remaining overlap
    let c1 = Circle { center: vec(0.0, 0.0), radius: fx(1.0) };
    let c2 = Circle { center: vec(1.5, 0.0), radius: fx(1.0) };
    let m = circle_circle(c1, c2).expect("overlapping circles must collide");
    assert_eq!(m.normal, vec(1.0, 0.0));
    assert_eq!(m.depth, fx(0.5));
    assert_eq!(m.contact_point_a, vec(1.0, 0.0));
    assert_eq!(m.contact_point_b, vec(2.5, 0.0));
}

#[test]
fn coincident_circles_use_zero_normal() {
    // coincident centers are degenerate: the normal falls back to zero
    let c = Circle { center: vec(3.0, 3.0), radius: fx(2.0) };
    let m = circle_circle(c, c).expect("coincident circles collide");
    assert_eq!(m.normal, Vec2 { x: 0, y: 0 });
}

#[test]
fn zero_radius_circles_behave() {
    let c1 = Circle { center: vec(1.0, 1.0), radius: 0 };
    let c2 = Circle { center: vec(1.0, 1.0), radius: 0 };
    assert!(circle_circle(c1, c2).is_some());
    let c3 = Circle { center: vec(2.0, 1.0), radius: 0 };
    assert!(circle_circle(c1, c3).is_none());
}

#[test]
fn zero_size_box_behaves() {
    let b = Box2D { min: vec(1.0, 1.0), max: vec(1.0, 1.0), rotation: rot(0.0) };
    let c = Circle { center: vec(1.0, 1.0), radius: fx(0.5) };
    assert!(box2d_circle(b, c).is_some());
    let far = Circle { center: vec(9.0, 9.0), radius: fx(0.5) };
    assert!(box2d_circle(b, far).is_none());
}

#[test]
fn box_box_sat_rejection_and_rotated_overlap() {
    // disjoint unrotated boxes are rejected by the separating axis test
    let b1 = Box2D { min: vec(0.0, 0.0), max: vec(2.0, 2.0), rotation: rot(0.0) };
    let b2 = Box2D { min: vec(5.0, 0.0), max: vec(7.0, 2.0), rotation: rot(0.0) };
    assert!(box2d_box2d(b1, b2).is_none());

    // rotating one box while keeping a true overlap still yields a
    // manifold with positive depth
    let b3 = Box2D { min: vec(0.0, 0.0), max: vec(4.0, 4.0), rotation: rot(0.0) };
    let b4 = Box2D {
        min: vec(3.0, 3.0),
        max: vec(7.0, 7.0),
        rotation: rot(std::f64::consts::PI / 4.0),
    };
    let m = box2d_box2d(b3, b4).expect("overlapping boxes must collide");
    assert!(m.depth > 0);
}

#[test]
fn box_box_overlap_has_positive_depth() {
    let b1 = Box2D { min: vec(0.0, 0.0), max: vec(4.0, 4.0), rotation: rot(0.0) };
    let b2 = Box2D { min: vec(3.0, 1.0), max: vec(6.0, 3.0), rotation: rot(0.0) };
    let m = box2d_box2d(b1, b2).expect("overlapping boxes must collide");
    assert!(m.depth > 0);
    assert_eq!(m.depth, fx(1.0));
}

#[test]
fn dispatcher_normals_negate_across_ordering() {
    // circle versus circle
    let c1 = ColliderShape::Circle(Circle { center: vec(0.0, 0.0), radius: fx(1.0) });
    let c2 = ColliderShape::Circle(Circle { center: vec(1.5, 0.5), radius: fx(1.0) });
    let m12 = c1.test_collision(c2).expect("collide");
    let m21 = c2.test_collision(c1).expect("collide");
    assert_eq!(m12.normal.x, -m21.normal.x);
    assert_eq!(m12.normal.y, -m21.normal.y);

    // circle versus box, both orderings
    let circle = ColliderShape::Circle(Circle { center: vec(2.5, 1.0), radius: fx(1.0) });
    let boxed = ColliderShape::Box2D(Box2D {
        min: vec(0.0, 0.0),
        max: vec(2.0, 2.0),
        rotation: rot(0.3),
    });
    let mcb = circle.test_collision(boxed).expect("collide");
    let mbc = boxed.test_collision(circle).expect("collide");
    assert_eq!(mcb.normal.x, -mbc.normal.x);
    assert_eq!(mcb.normal.y, -mbc.normal.y);
}

#[test]
fn non_overlapping_shapes_yield_no_manifold() {
    let c1 = ColliderShape::Circle(Circle { center: vec(0.0, 0.0), radius: fx(1.0) });
    let c2 = ColliderShape::Circle(Circle { center: vec(5.0, 0.0), radius: fx(1.0) });
    assert!(c1.test_collision(c2).is_none());
    let b = ColliderShape::Box2D(Box2D {
        min: vec(10.0, 10.0),
        max: vec(12.0, 12.0),
        rotation: rot(0.0),
    });
    assert!(c1.test_collision(b).is_none());
    assert!(b.test_collision(c1).is_none());
}
