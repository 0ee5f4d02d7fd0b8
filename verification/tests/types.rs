use meth::identity::{one, zero};
use meth::{EulerAngles, Matrix, Quaternion, Vec2, Vec3, Vec4};

#[test]
fn identity_functions_return_the_identities() {
    let z: u32 = zero();
    let o: i8 = one();
    assert_eq!(z, 0);
    assert_eq!(o, 1);
    assert!(meth::Zero::is_zero(&0_u64));
    assert!(!meth::Zero::is_zero(&3_u64));
    assert!(meth::One::is_one(&1_i128));
    assert!(!meth::One::is_one(&0_i128));
}

#[test]
fn vec2_constructors_discard_higher_coordinates() {
    let v = Vec2::from_xyzw(1_u32, 2, 3, 4);
    assert_eq!((v.x, v.y), (1, 2));
    let v = Vec2::from_xyz(5_u32, 6, 7);
    assert_eq!((v.x, v.y), (5, 6));
}

#[test]
fn vec3_and_vec4_constructors_pad_with_zero() {
    let v = Vec3::from_xy(1_i16, 2);
    assert_eq!((v.x, v.y, v.z), (1, 2, 0));
    let v = Vec4::from_xyz(1_i16, 2, 3);
    assert_eq!((v.x, v.y, v.z, v.w), (1, 2, 3, 0));
    let v = Vec4::from_xy(9_i16, 8);
    assert_eq!((v.x, v.y, v.z, v.w), (9, 8, 0, 0));
}

#[test]
fn vec2_array_round_trip_returns_the_vector() {
    let v = Vec2::from_array([3_u32, 4]);
    let back = Vec2::from_array(v.to_array());
    assert_eq!((back.x, back.y), (v.x, v.y));
}

#[test]
fn vec_round_trip_through_the_general_vector() {
    let v = Vec3::from_xyz(1_u32, 2, 3);
    let back = Vec3::from_vec(v.to_vec());
    assert_eq!((back.x, back.y, back.z), (1, 2, 3));
}

#[test]
fn vec2_arithmetic_matches_elementwise_results() {
    let a = Vec2::from_xy(8_u32, 6);
    let b = Vec2::from_xy(2_u32, 3);
    assert_eq!(a.add(b).to_array(), [10, 9]);
    assert_eq!(a.sub(b).to_array(), [6, 3]);
    assert_eq!(a.mul(b).to_array(), [16, 18]);
    assert_eq!(a.div(b).to_array(), [4, 2]);
    assert_eq!(a.rem(b).to_array(), [0, 0]);
    let mut c = a;
    c.add_assign(b);
    assert_eq!(c.to_array(), [10, 9]);
}

#[test]
fn vec3_dot_and_magnitude_squared_agree() {
    let a = Vec3::from_xyz(1_u32, 2, 3);
    let b = Vec3::from_xyz(4_u32, 5, 6);
    assert_eq!(a.dot(b), 32);
    assert_eq!(a.magnitude_squared(), 14);
    assert_eq!(a.dot(a), a.magnitude_squared());
}

#[test]
fn vec4_distance_squared() {
    let a = Vec4::from_xyzw(5_i32, 9, 12, 1);
    let b = Vec4::from_xyzw(1_i32, 6, 12, 1);
    assert_eq!(a.distance_squared(b), 25);
    assert_eq!(a.sum(), 27);
    assert_eq!(a.product(), 540);
}

#[test]
fn vec_lengths_are_fixed() {
    assert_eq!(Vec2::splat(1_u32).len(), 2);
    assert_eq!(Vec3::splat(1_u32).len(), 3);
    assert_eq!(Vec4::splat(1_u32).len(), 4);
    assert!(!Vec2::splat(1_u32).is_empty());
    assert_eq!(Vec3::<u16>::zero().to_array(), [0; 3]);
    assert_eq!(Vec4::<u16>::one().to_array(), [1; 4]);
}

#[test]
fn matrix_shape_is_fixed() {
    let m: Matrix<u32, 3, 4> = Matrix::splat(7);
    assert_eq!(m.rows(), 3);
    assert_eq!(m.columns(), 4);
    let z: Matrix<i8, 2, 2> = Matrix::zero();
    assert_eq!(z.rows(), 2);
    let o: Matrix<i8, 2, 2> = Matrix::one();
    assert_eq!(o.columns(), 2);
}

#[test]
fn quaternion_constructors_set_components() {
    let q = Quaternion::from_xyzw(1_i32, 2, 3, 4);
    assert_eq!((q.x, q.y, q.z, q.w), (1, 2, 3, 4));
    let s = Quaternion::splat(9_i32);
    assert_eq!((s.x, s.y, s.z, s.w), (9, 9, 9, 9));
    let z = Quaternion::<i32>::zero();
    assert_eq!((z.x, z.y, z.z, z.w), (0, 0, 0, 0));
    let o = Quaternion::<i32>::one();
    assert_eq!((o.x, o.y, o.z, o.w), (1, 1, 1, 1));
}

#[test]
fn euler_angles_keep_their_fields() {
    let e = EulerAngles::new(1_i32, 2, 3);
    assert_eq!((e.pitch, e.yaw, e.roll), (1, 2, 3));
}
