use linalg::dvec::{DVec, VectorError};
use linalg::scalar::Scalar;
use linalg::vec2::Vec2;
use linalg::vec3::Vec3;

#[test]
fn test_2d_vec_dot() {
    let x = Vec2::new(1i64, 2);
    let y = Vec2::new(3i64, 4);

    assert_eq!(x.dot(y), 11);
}

#[test]
fn test_2d_vec_arithmetic() {
    let x = Vec2::new(1i64, 2);
    let y = Vec2::new(3i64, 4);

    assert_eq!(x.add(y), Vec2::new(4, 6));
    assert_eq!(x.sub(y), Vec2::new(-2, -2));
    assert_eq!(x.mul(2), Vec2::new(2, 4));
}

#[test]
fn test_3d_vec_arithmetic() {
    let x = Vec3::new(1i64, 2, 3);
    let y = Vec3::new(3i64, 4, 5);

    assert_eq!(x.add(y), Vec3::new(4, 6, 8));
    assert_eq!(x.sub(y), Vec3::new(-2, -2, -2));
    assert_eq!(x.mul(2), Vec3::new(2, 4, 6));
}

#[test]
fn test_nd_vec_arithmetic() {
    let x = DVec::new(vec![1i64, 2, 3, 4]);
    let y = DVec::new(vec![3i64, 4, 5, 6]);

    assert_eq!(x.add(&y).unwrap(), DVec::new(vec![4, 6, 8, 10]));
    assert_eq!(x.dot(&y).unwrap(), 50);
    assert_eq!(x.sub(&y).unwrap(), DVec::new(vec![-2, -2, -2, -2]));
    assert_eq!(x.mul(2), DVec::new(vec![2, 4, 6, 8]));
}

#[test]
fn test_dvec_dimension_mismatch() {
    let x = DVec::new(vec![1i64, 2, 3]);
    let y = DVec::new(vec![1i64, 2]);

    assert_eq!(x.add(&y).unwrap_err(), VectorError::DimensionMismatch);
}

#[test]
fn test_3d_vec_dot() {
    let x = Vec3::new(1i64, 2, 3);
    let y = Vec3::new(3i64, 4, 5);

    assert_eq!(x.dot(y), 26);
}

#[test]
fn test_2d_vec_add_commutes() {
    let x = Vec2::new(7i64, -5);
    let y = Vec2::new(2i64, 9);

    assert_eq!(x.add(y), y.add(x));
}

#[test]
fn test_3d_vec_add_commutes() {
    let x = Vec3::new(7i64, -5, 11);
    let y = Vec3::new(2i64, 9, -4);

    assert_eq!(x.add(y), y.add(x));
}

#[test]
fn test_nd_vec_add_commutes() {
    let x = DVec::new(vec![7i64, -5, 11]);
    let y = DVec::new(vec![2i64, 9, -4]);

    assert_eq!(x.add(&y).unwrap(), y.add(&x).unwrap());
}

#[test]
fn test_2d_vec_mul_identity() {
    let x = Vec2::new(7i64, -5);
    let one: i64 = <i64 as Scalar>::one_val();

    assert_eq!(x.mul(one), x);
}

#[test]
fn test_3d_vec_mul_identity() {
    let x = Vec3::new(7i64, -5, 11);
    let one: i64 = <i64 as Scalar>::one_val();

    assert_eq!(x.mul(one), x);
}

#[test]
fn test_nd_vec_mul_identity() {
    let x = DVec::new(vec![7i64, -5, 11]);
    let one: i64 = <i64 as Scalar>::one_val();

    assert_eq!(x.mul(one), x);
}

#[test]
fn test_nd_vec_dot_dimension_mismatch() {
    let x = DVec::new(vec![1i64, 2, 3]);
    let y = DVec::new(vec![1i64, 2]);

    assert_eq!(x.dot(&y).unwrap_err(), VectorError::DimensionMismatch);
}

#[test]
fn test_nd_vec_sub_dimension_mismatch() {
    let x = DVec::new(vec![1i64, 2, 3]);
    let y = DVec::new(vec![1i64, 2]);

    assert_eq!(x.sub(&y).unwrap_err(), VectorError::DimensionMismatch);
}

#[test]
fn test_nd_vec_len() {
    let x = DVec::new(vec![1i64, 2, 3, 4]);

    assert_eq!(x.len(), 4);
}

#[test]
fn test_nd_vec_single_component() {
    let x = DVec::new(vec![5i64]);
    let y = DVec::new(vec![3i64]);

    assert_eq!(x.len(), 1);
    assert_eq!(x.dot(&y).unwrap(), 15);
    assert_eq!(x.add(&y).unwrap(), DVec::new(vec![8]));
    assert_eq!(x.sub(&y).unwrap(), DVec::new(vec![2]));
}

#[test]
fn test_i32_scalars() {
    let x = Vec2::new(1i32, 2);
    let y = Vec2::new(3i32, 4);
    let v = DVec::new(vec![1i32, 2, 3, 4]);
    let w = DVec::new(vec![3i32, 4, 5, 6]);

    assert_eq!(x.dot(y), 11);
    assert_eq!(v.dot(&w).unwrap(), 50);
}
