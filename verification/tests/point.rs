use guikit::point::{comp_mul, dot, Vec2};

#[test]
fn new_and_constructors() {
    let a = Vec2::new(3, -4);
    assert_eq!(a.x, 3);
    assert_eq!(a.y, -4);
    assert_eq!(Vec2::from_scalar(7), Vec2::new(7, 7));
    assert_eq!(Vec2::from_tuple((1, 2)), Vec2::new(1, 2));
}

#[test]
fn swap_exchanges_coordinates() {
    assert_eq!(Vec2::new(1, 2).swap(), Vec2::new(2, 1));
    assert_eq!(Vec2::new(1, 2).swap().swap(), Vec2::new(1, 2));
}

#[test]
fn component_product() {
    assert_eq!(comp_mul(Vec2::new(2, 3), Vec2::new(4, 5)), Vec2::new(8, 15));
    assert_eq!(comp_mul(Vec2::new(-2, 0), Vec2::new(4, 5)), Vec2::new(-8, 0));
}

#[test]
fn dot_product() {
    assert_eq!(dot(Vec2::new(2, 3), Vec2::new(4, 5)), 23);
    assert_eq!(dot(Vec2::new(1, 0), Vec2::new(0, 1)), 0);
}

#[test]
fn squared_length() {
    assert_eq!(Vec2::new(3, 4).sq(), 25);
    assert_eq!(Vec2::new(0, 0).sq(), 0);
}

#[test]
fn scalar_and_cross() {
    assert_eq!(Vec2::scalar(Vec2::new(1, 2), Vec2::new(3, 4)), 11);
    assert_eq!(Vec2::cross(Vec2::new(1, 2), Vec2::new(3, 4)), -2);
    assert_eq!(Vec2::cross(Vec2::new(1, 0), Vec2::new(0, 1)), 1);
}

#[test]
fn quarter_turn() {
    assert_eq!(Vec2::new(1, 2).ortog(), Vec2::new(-2, 1));
    assert_eq!(Vec2::new(1, 2).ortog().ortog(), Vec2::new(-1, -2));
}

#[test]
fn operators() {
    let a = Vec2::new(6, 8);
    let b = Vec2::new(1, 2);
    assert_eq!(a + b, Vec2::new(7, 10));
    assert_eq!(a - b, Vec2::new(5, 6));
    assert_eq!(a * 2, Vec2::new(12, 16));
    assert_eq!(a / 2, Vec2::new(3, 4));
    assert_eq!(-a, Vec2::new(-6, -8));
    assert_eq!((a - b) + b, a);
}

#[test]
fn tuple_conversions() {
    let v: Vec2<i32> = (5, 6).into();
    assert_eq!(v, Vec2::new(5, 6));
    let t: (i32, i32) = v.into();
    assert_eq!(t, (5, 6));
}
