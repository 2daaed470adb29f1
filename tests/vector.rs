use raytracer::{Cross, Dot, Lerp, Mat3, Vec2, Vec3};

#[test]
fn test_cross() {
    let a = Vec3::new(2.0, 3.0, 4.0);
    let b = Vec3::new(5.0, 6.0, 7.0);
    let c = Vec3::new(-3.0, 6.0, -3.0);
    assert_eq!(Vec3::cross(a, b), c);
}

#[test]
fn test_cross_2() {
    let a = Vec3::new(1.0, 0.0, 0.0);
    let b = Vec3::new(0.0, 1.0, 0.0);
    let c = Vec3::new(0.0, 0.0, 1.0);
    assert_eq!(Vec3::cross(a, b), c);
}

#[test]
fn test_dot() {
    assert_eq!(
        Vec3::dot(Vec3::new(0.0, 1.0, 0.0), Vec3::new(1.0, 0.0, 0.0)),
        0.0
    );
}

#[test]
fn test_math_vec3() {
    let a = Vec3::new(2.0, 3.0, 4.0);
    let b = Vec3::new(5.0, 6.0, 7.0);
    let _s = 1.5;
    assert_eq!(a + b, Vec3::new(7.0, 9.0, 11.0));
    assert_eq!(a - b, Vec3::new(-3.0, -3.0, -3.0));
    assert_eq!(a * b, Vec3::new(10.0, 18.0, 28.0));

    let c = Vec3::from(6.0);
    let d = Vec3::from(3.0);
    assert_eq!(c / d, Vec3::from(2.0));
}

#[test]
fn test_math_vec2() {
    let _a = Vec2::new(2.0, 3.0);
    let _b = Vec2::new(4.0, 5.0);
    let _s = 1.5;
}

#[test]
fn test_mat3_mat3_mult() {
    let a = Mat3::from([2.0, 7.0, 3.0, 1.0, 5.0, 8.0, 0.0, 4.0, 1.0]);
    let b = Mat3::from([3.0, 0.0, 1.0, 2.0, 1.0, 0.0, 1.0, 2.0, 4.0]);
    let c = Mat3::from([23.0, 13.0, 14.0, 21.0, 21.0, 33.0, 9.0, 6.0, 4.0]);
    assert_eq!(a * b, c);
}

#[test]
fn test_mat3_vec3_mult() {
    let a = Mat3::from([1.0, 2.0, 3.0, 4.0, 5.0, 6.0, 7.0, 8.0, 9.0]);
    let b = Vec3::from([2.0, 1.0, 3.0]);
    let c = Vec3::from([13.0, 31.0, 49.0]);
    assert_eq!(a * b, c);
}

#[test]
fn integer_vectors_follow_their_formulas() {
    let a: Vec3<i32> = Vec3::new(2, 3, 4);
    let b: Vec3<i32> = Vec3::new(5, 6, 7);
    assert_eq!(a.dot(b), 56);
    assert_eq!(a.cross(b), Vec3::new(-3, 6, -3));
    assert_eq!(-a, Vec3::new(-2, -3, -4));
    assert_eq!(a * 3, Vec3::new(6, 9, 12));
}

#[test]
fn lerp_interpolates_componentwise() {
    let a = Vec3::new(0.0, 2.0, 4.0);
    let b = Vec3::new(2.0, 4.0, 8.0);
    assert_eq!(Vec3::lerp(a, b, 0.5), Vec3::new(1.0, 3.0, 6.0));
    assert_eq!(Vec3::lerp(a, b, 0.0), a);
    let p: Vec2<i64> = Vec2::new(1, 10);
    let q: Vec2<i64> = Vec2::new(5, 20);
    assert_eq!(Vec2::lerp(p, q, 2), Vec2::new(9, 30));
}

#[test]
fn integer_matrix_product() {
    let a: Mat3<i32> = Mat3::from([2, 7, 3, 1, 5, 8, 0, 4, 1]);
    let identity: Mat3<i32> = Mat3::from([1, 0, 0, 0, 1, 0, 0, 0, 1]);
    assert_eq!(a * identity, a);
    assert_eq!(identity * a, a);
    assert_eq!(identity * Vec3::new(4, 5, 6), Vec3::new(4, 5, 6));
}

#[test]
fn test_index() {
    let v = Vec3::new(1.0, 2.0, 3.0);
    assert_eq!(v.x, v[0]);
    assert_eq!(v.y, v[1]);
    assert_eq!(v.z, v[2]);
}

#[test]
fn matrix_from_rows() {
    let m: Mat3<i32> = Mat3::from([Vec3::new(1, 2, 3), Vec3::new(4, 5, 6), Vec3::new(7, 8, 9)]);
    assert_eq!(m, Mat3::from([1, 2, 3, 4, 5, 6, 7, 8, 9]));
    assert_eq!(Vec3::from((1, 2, 3)), Vec3::new(1, 2, 3));
}

#[test]
fn vec2_arithmetic() {
    let a = Vec2::new(2.0, 3.0);
    let b = Vec2::new(4.0, 5.0);
    assert_eq!(a + b, Vec2::new(6.0, 8.0));
    assert_eq!(b - a, Vec2::new(2.0, 2.0));
    assert_eq!(a * b, Vec2::new(8.0, 15.0));
    assert_eq!(b / Vec2::from(2.0), Vec2::new(2.0, 2.5));
    assert_eq!(a * 2.0, Vec2::new(4.0, 6.0));
    assert_eq!(Vec2::from((7, 9)) - 1, Vec2::new(6, 8));
    assert_eq!(Vec3::new(2, 4, 6) / 2, Vec3::new(1, 2, 3));
    assert_eq!(Vec3::new(2, 4, 6) + 1, Vec3::new(3, 5, 7));
}
