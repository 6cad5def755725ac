//! Tests of the shared geometric types.  Coordinates are `i64` values in
//! ten-thousandths of a unit, so `10000` is one unit.

use cnccoder::types::{Vector2, Vector3};

#[test]
fn types_test_vector3_min() {
    let vector = Vector3::min();
    assert!(vector.x == i64::MIN);
    assert!(vector.y == i64::MIN);
    assert!(vector.z == i64::MIN);
}

#[test]
fn types_test_vector3_max() {
    let vector = Vector3::max();
    assert!(vector.x == i64::MAX);
    assert!(vector.y == i64::MAX);
    assert!(vector.z == i64::MAX);
}

#[test]
fn types_test_vector3_xy_xz_yz() {
    let vector = Vector3::new(10000, 20000, 30000);
    assert!(vector.xy() == Vector2::new(10000, 20000));
    assert!(vector.xz() == Vector2::new(10000, 30000));
    assert!(vector.yz() == Vector2::new(20000, 30000));
}

#[test]
fn types_test_vector3_add_xyz() {
    let vector = Vector3::default();

    let vector = vector.add_x(10000);
    assert!(vector.x == 10000);
    assert!(vector.y == 0);
    assert!(vector.z == 0);

    let vector = vector.add_y(-10000);
    assert!(vector.x == 10000);
    assert!(vector.y == -10000);
    assert!(vector.z == 0);

    let vector = vector.add_z(30000);
    assert!(vector.x == 10000);
    assert!(vector.y == -10000);
    assert!(vector.z == 30000);
}

#[test]
fn types_test_vector2_min() {
    let vector = Vector2::min();
    assert!(vector.x == i64::MIN);
    assert!(vector.y == i64::MIN);
}

#[test]
fn types_test_vector2_max() {
    let vector = Vector2::max();
    assert!(vector.x == i64::MAX);
    assert!(vector.y == i64::MAX);
}

#[test]
fn types_test_vector2_add_xyz() {
    let vector = Vector2::default();

    let vector = vector.add_x(10000);
    assert!(vector.x == 10000);
    assert!(vector.y == 0);

    let vector = vector.add_y(-10000);
    assert!(vector.x == 10000);
    assert!(vector.y == -10000);
}

#[test]
fn types_test_vector2_distance_to() {
    let vector_a = Vector2::new(200000, 400000);
    let vector_b = Vector2::new(200000, 200000);
    assert!(vector_a.distance_to(vector_b) == 200000);
}

#[test]
fn vector_test_vector3_min() {
    let vector = Vector3::min();
    assert!(vector.x == i64::MIN);
    assert!(vector.y == i64::MIN);
    assert!(vector.z == i64::MIN);
}

#[test]
fn vector_test_vector3_max() {
    let vector = Vector3::max();
    assert!(vector.x == i64::MAX);
    assert!(vector.y == i64::MAX);
    assert!(vector.z == i64::MAX);
}

#[test]
fn vector_test_vector3_xy_xz_yz() {
    let vector = Vector3::new(10000, 20000, 30000);
    assert!(vector.xy() == Vector2::new(10000, 20000));
    assert!(vector.xz() == Vector2::new(10000, 30000));
    assert!(vector.yz() == Vector2::new(20000, 30000));
}

#[test]
fn vector_test_vector3_add_xyz() {
    let vector = Vector3::default();

    let vector = vector.add_x(10000);
    assert!(vector.x == 10000);
    assert!(vector.y == 0);
    assert!(vector.z == 0);

    let vector = vector.add_y(-10000);
    assert!(vector.x == 10000);
    assert!(vector.y == -10000);
    assert!(vector.z == 0);

    let vector = vector.add_z(30000);
    assert!(vector.x == 10000);
    assert!(vector.y == -10000);
    assert!(vector.z == 30000);
}

#[test]
fn vector_test_vector2_min() {
    let vector = Vector2::min();
    assert!(vector.x == i64::MIN);
    assert!(vector.y == i64::MIN);
}

#[test]
fn vector_test_vector2_max() {
    let vector = Vector2::max();
    assert!(vector.x == i64::MAX);
    assert!(vector.y == i64::MAX);
}

#[test]
fn vector_test_vector2_add_xyz() {
    let vector = Vector2::default();

    let vector = vector.add_x(10000);
    assert!(vector.x == 10000);
    assert!(vector.y == 0);

    let vector = vector.add_y(-10000);
    assert!(vector.x == 10000);
    assert!(vector.y == -10000);
}

#[test]
fn vector_test_vector2_distance_to() {
    let vector_a = Vector2::new(200000, 400000);
    let vector_b = Vector2::new(200000, 200000);
    assert!(vector_a.distance_to(vector_b) == 200000);
}
