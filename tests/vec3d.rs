use handyman::vector::Vec3D;
use handyman::Scalar;

#[test]
fn from_tuple_three() {
    assert_eq!(Vec3D::from_tuple((1, 3, 5)), Vec3D(1, 3, 5));
}

#[test]
fn accessors_three() {
    let v = Vec3D(4, 5, 6);
    assert_eq!(v.x(), 4);
    assert_eq!(v.y(), 5);
    assert_eq!(v.z(), 6);
}

#[test]
fn apply_three() {
    assert_eq!(Vec3D(1, 2, 3).apply(|x| x * x), Vec3D(1, 4, 9));
}

#[test]
fn apply_three_in_order() {
    let mut seen = Vec::new();
    Vec3D('a', 'b', 'c').apply(|c| seen.push(c));
    assert_eq!(seen, vec!['a', 'b', 'c']);
}

#[test]
fn zip_with_three() {
    let r = Vec3D(1, 2, 3).zip_with(Vec3D(10, 20, 30), |a, b| b - a);
    assert_eq!(r, Vec3D(9, 18, 27));
}

#[test]
fn add_three() {
    assert_eq!(Vec3D(1, 2, 3) + Vec3D(4, 5, 6), Vec3D(5, 7, 9));
}

#[test]
fn multiply_three() {
    assert_eq!(Vec3D(1u16, 3u16, 5u16) * 3, Vec3D(3u16, 9u16, 15u16));
}

#[test]
fn negate_three() {
    assert_eq!(-Vec3D(2, -3, 0), Vec3D(-2, 3, 0));
}

#[test]
fn zero_and_one_three() {
    assert_eq!(Vec3D::<i8>::zero(), Vec3D(0, 0, 0));
    assert_eq!(Vec3D::<u128>::one(), Vec3D(1, 1, 1));
}

#[test]
fn identity_laws_three() {
    let v = Vec3D(-8i32, 0i32, 31i32);
    assert_eq!(v + Vec3D::zero(), v);
    assert_eq!(v * i32::one(), v);
}

#[test]
fn addition_commutes_three() {
    let a = Vec3D(1u64, 20u64, 300u64);
    let b = Vec3D(4000u64, 50000u64, 6u64);
    assert_eq!(a + b, b + a);
}

#[test]
fn add_negation_is_zero_three() {
    let v = Vec3D(i64::MAX, -1i64, i64::MIN + 1);
    assert_eq!(v + (-v), Vec3D::zero());
}

#[test]
fn multiplication_distributes_three() {
    let a = Vec3D(1i32, -2i32, 3i32);
    let b = Vec3D(-4i32, 5i32, 6i32);
    let k = 7i32;
    assert_eq!((a + b) * k, a * k + b * k);
    assert_eq!((a + b) * k, Vec3D(-21i32, 21i32, 63i32));
}
