use handyman::vector::Vec2D;
use handyman::Scalar;

#[test]
fn add_two_vectors() {
    assert_eq!(Vec2D(1, 2) + Vec2D(3, 4), Vec2D(4, 6));
}

#[test]
fn multiply_by_scalar() {
    assert_eq!(Vec2D(1, 3) * 2, Vec2D(2, 6));
}

#[test]
fn apply_adds_two() {
    assert_eq!(Vec2D(1, 2).apply(|x| x + 2), Vec2D(3, 4));
}

#[test]
fn apply_named_function() {
    fn add_two(x: i32) -> i32 {
        x + 2
    }
    assert_eq!(Vec2D(1, 2).apply(add_two), Vec2D(3, 4));
}

#[test]
fn apply_changes_component_type() {
    assert_eq!(Vec2D(1u8, 200u8).apply(|x| u32::from(x) * 1000), Vec2D(1000u32, 200000u32));
}

#[test]
fn apply_calls_in_component_order() {
    let mut seen = Vec::new();
    let r = Vec2D(5, 7).apply(|x| {
        seen.push(x);
        x
    });
    assert_eq!(r, Vec2D(5, 7));
    assert_eq!(seen, vec![5, 7]);
}

#[test]
fn zip_with_adds() {
    assert_eq!(Vec2D(1, 2).zip_with(Vec2D(3, 4), |a, b| a + b), Vec2D(4, 6));
}

#[test]
fn zip_with_mixed_types() {
    let r = Vec2D(2i64, 3i64).zip_with(Vec2D(true, false), |a, b| if b { a } else { -a });
    assert_eq!(r, Vec2D(2i64, -3i64));
}

#[test]
fn zip_with_matches_add() {
    let a = Vec2D(-7i32, 11i32);
    let b = Vec2D(20i32, -4i32);
    assert_eq!(a.zip_with(b, |p, q| p + q), a + b);
}

#[test]
fn negate_signed() {
    assert_eq!(-Vec2D(2, -3), Vec2D(-2, 3));
}

#[test]
fn from_tuple_matches_constructor() {
    assert_eq!(Vec2D::from_tuple((1, 3)), Vec2D(1, 3));
    assert_eq!(Vec2D::from_tuple((-9i64, 0i64)), Vec2D(-9i64, 0i64));
}

#[test]
fn accessors_return_components() {
    let v = Vec2D(1, 2);
    assert_eq!(v.x(), 1);
    assert_eq!(v.y(), 2);
}

#[test]
fn zero_and_one() {
    assert_eq!(Vec2D::<i32>::zero(), Vec2D(0, 0));
    assert_eq!(Vec2D::<u64>::one(), Vec2D(1, 1));
}

#[test]
fn add_zero_is_identity() {
    let v = Vec2D(-5i16, 17i16);
    assert_eq!(v + Vec2D::zero(), v);
    assert_eq!(Vec2D::zero() + v, v);
}

#[test]
fn multiply_by_one_is_identity() {
    let v = Vec2D(123u32, 456u32);
    assert_eq!(v * u32::one(), v);
}

#[test]
fn addition_commutes() {
    let a = Vec2D(3i8, -100i8);
    let b = Vec2D(-50i8, 27i8);
    assert_eq!(a + b, b + a);
    assert_eq!(a + b, Vec2D(-47i8, -73i8));
}

#[test]
fn add_negation_is_zero() {
    let v = Vec2D(42isize, -17isize);
    assert_eq!(v + (-v), Vec2D::zero());
}

#[test]
fn negate_largest_values() {
    assert_eq!(-Vec2D(i32::MAX, -i32::MAX), Vec2D(-i32::MAX, i32::MAX));
}

#[test]
fn multiplication_distributes() {
    let a = Vec2D(2i64, -3i64);
    let b = Vec2D(5i64, 7i64);
    let k = -4i64;
    assert_eq!((a + b) * k, a * k + b * k);
    assert_eq!((a + b) * k, Vec2D(-28i64, -16i64));
}

#[test]
fn add_at_type_bounds() {
    assert_eq!(Vec2D(u8::MAX - 1, 0u8) + Vec2D(1u8, u8::MAX), Vec2D(u8::MAX, u8::MAX));
    assert_eq!(Vec2D(i128::MIN, i128::MAX) + Vec2D(0, 0), Vec2D(i128::MIN, i128::MAX));
}

#[test]
fn multiply_by_zero() {
    assert_eq!(Vec2D(9usize, 12usize) * 0, Vec2D::zero());
}
