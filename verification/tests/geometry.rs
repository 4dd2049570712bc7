use axesporen::vector2d::{dist_sq, within_distance, Vector2D};
use axesporen::text::decimal_string;

#[test]
fn add_and_from_points_are_componentwise() {
    let a = Vector2D::new(3, -4);
    let b = Vector2D::new(10, 20);
    let s = a.add(&b);
    assert_eq!(s.x, 13);
    assert_eq!(s.y, 16);
    let d = Vector2D::from_points(&a, &b);
    assert_eq!(d.x, 7);
    assert_eq!(d.y, 24);
}

#[test]
fn magnitude_is_floored_euclidean_norm() {
    assert_eq!(Vector2D::new(3, 4).magnitude(), 5);
    assert_eq!(Vector2D::new(-3, 4).magnitude(), 5);
    assert_eq!(Vector2D::new(0, 0).magnitude(), 0);
    assert_eq!(Vector2D::new(1, 1).magnitude(), 1);
    assert_eq!(Vector2D::new(1000, 0).magnitude(), 1000);
}

#[test]
fn normalized_zero_vector_has_no_direction() {
    assert!(Vector2D::new(0, 0).unitaire().is_none());
}

#[test]
fn normalized_nonzero_vector_has_unit_magnitude() {
    let u = Vector2D::new(3000, 4000).unitaire().unwrap();
    assert_eq!(u.x, 600);
    assert_eq!(u.y, 800);
    assert_eq!(u.magnitude(), 1000);
    let v = Vector2D::new(-7, 0).unitaire().unwrap();
    assert_eq!(v.x, -1000);
    assert_eq!(v.y, 0);
    assert_eq!(v.magnitude(), 1000);
}

#[test]
fn dist_sq_is_exact() {
    let a = Vector2D::new(1, 2);
    let b = Vector2D::new(4, 6);
    assert_eq!(dist_sq(&a, &b), 25);
    assert_eq!(dist_sq(&b, &a), 25);
    assert_eq!(dist_sq(&a, &a), 0);
}

#[test]
fn within_distance_is_strict() {
    let c = Vector2D::new(0, 0);
    assert!(within_distance(&c, &Vector2D::new(4999, 0), 5000));
    assert!(!within_distance(&c, &Vector2D::new(5000, 0), 5000));
    assert!(!within_distance(&c, &Vector2D::new(5001, 0), 5000));
}

#[test]
fn decimal_string_renders_counters() {
    assert_eq!(decimal_string(0).as_str(), "0");
    assert_eq!(decimal_string(7).as_str(), "7");
    assert_eq!(decimal_string(42).as_str(), "42");
    assert_eq!(decimal_string(1000).as_str(), "1000");
    assert_eq!(decimal_string(4294967295).as_str(), "4294967295");
}
