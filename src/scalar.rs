//! Scalar capabilities that vector components can have.
use vstd::prelude::*;

verus! {

/// An integer scalar: a type whose every value stands for a mathematical integer.
pub trait Scalar: Copy + Sized {
    /// The integer that a value stands for.
    spec fn val(self) -> int;

    /// Whether the integer `v` can be held by this type.
    spec fn fits(v: int) -> bool;

    /// The value that stands for `v` (meaningful where `fits(v)`).
    spec fn of(v: int) -> Self;

    /// Each value stands for an integer that fits, and is the value of that integer.
    proof fn lemma_val(a: Self)
        ensures
            Self::fits(a.val()),
            Self::of(a.val()) == a,
    ;

    /// An integer that fits is held exactly.
    proof fn lemma_of(v: int)
        requires
            Self::fits(v),
        ensures
            Self::of(v).val() == v,
    ;

    /// Zero and one always fit.
    proof fn lemma_identities_fit()
        ensures
            Self::fits(0),
            Self::fits(1),
    ;

    /// The additive identity.
    fn zero() -> (r: Self)
        ensures
            r.val() == 0,
    ;

    /// The multiplicative identity.
    fn one() -> (r: Self)
        ensures
            r.val() == 1,
    ;

    /// The sum of two values, which must fit.
    fn plus(self, rhs: Self) -> (r: Self)
        requires
            Self::fits(self.val() + rhs.val()),
        ensures
            r.val() == self.val() + rhs.val(),
    ;

    /// The product of two values, which must fit.
    fn times(self, rhs: Self) -> (r: Self)
        requires
            Self::fits(self.val() * rhs.val()),
        ensures
            r.val() == self.val() * rhs.val(),
    ;
}

/// A scalar that can be negated.
pub trait SignedScalar: Scalar {
    /// The negation of a value, which must fit.
    fn negated(self) -> (r: Self)
        requires
            Self::fits(-self.val()),
        ensures
            r.val() == -self.val(),
    ;

    /// Minus one always fits.
    proof fn lemma_minus_one_fits()
        ensures
            Self::fits(-1),
    ;
}

impl Scalar for i8 {
    open spec fn val(self) -> int {
        self as int
    }

    open spec fn fits(v: int) -> bool {
        i8::MIN <= v <= i8::MAX
    }

    open spec fn of(v: int) -> i8 {
        v as i8
    }

    proof fn lemma_val(a: i8) {
    }

    proof fn lemma_of(v: int) {
    }

    proof fn lemma_identities_fit() {
    }

    fn zero() -> (r: i8) {
        0
    }

    fn one() -> (r: i8) {
        1
    }

    fn plus(self, rhs: i8) -> (r: i8) {
        self + rhs
    }

    fn times(self, rhs: i8) -> (r: i8) {
        self * rhs
    }
}

impl SignedScalar for i8 {
    fn negated(self) -> (r: i8) {
        -self
    }

    proof fn lemma_minus_one_fits() {
    }
}

impl Scalar for i16 {
    open spec fn val(self) -> int {
        self as int
    }

    open spec fn fits(v: int) -> bool {
        i16::MIN <= v <= i16::MAX
    }

    open spec fn of(v: int) -> i16 {
        v as i16
    }

    proof fn lemma_val(a: i16) {
    }

    proof fn lemma_of(v: int) {
    }

    proof fn lemma_identities_fit() {
    }

    fn zero() -> (r: i16) {
        0
    }

    fn one() -> (r: i16) {
        1
    }

    fn plus(self, rhs: i16) -> (r: i16) {
        self + rhs
    }

    fn times(self, rhs: i16) -> (r: i16) {
        self * rhs
    }
}

impl SignedScalar for i16 {
    fn negated(self) -> (r: i16) {
        -self
    }

    proof fn lemma_minus_one_fits() {
    }
}

impl Scalar for i32 {
    open spec fn val(self) -> int {
        self as int
    }

    open spec fn fits(v: int) -> bool {
        i32::MIN <= v <= i32::MAX
    }

    open spec fn of(v: int) -> i32 {
        v as i32
    }

    proof fn lemma_val(a: i32) {
    }

    proof fn lemma_of(v: int) {
    }

    proof fn lemma_identities_fit() {
    }

    fn zero() -> (r: i32) {
        0
    }

    fn one() -> (r: i32) {
        1
    }

    fn plus(self, rhs: i32) -> (r: i32) {
        self + rhs
    }

    fn times(self, rhs: i32) -> (r: i32) {
        self * rhs
    }
}

impl SignedScalar for i32 {
    fn negated(self) -> (r: i32) {
        -self
    }

    proof fn lemma_minus_one_fits() {
    }
}

impl Scalar for i64 {
    open spec fn val(self) -> int {
        self as int
    }

    open spec fn fits(v: int) -> bool {
        i64::MIN <= v <= i64::MAX
    }

    open spec fn of(v: int) -> i64 {
        v as i64
    }

    proof fn lemma_val(a: i64) {
    }

    proof fn lemma_of(v: int) {
    }

    proof fn lemma_identities_fit() {
    }

    fn zero() -> (r: i64) {
        0
    }

    fn one() -> (r: i64) {
        1
    }

    fn plus(self, rhs: i64) -> (r: i64) {
        self + rhs
    }

    fn times(self, rhs: i64) -> (r: i64) {
        self * rhs
    }
}

impl SignedScalar for i64 {
    fn negated(self) -> (r: i64) {
        -self
    }

    proof fn lemma_minus_one_fits() {
    }
}

impl Scalar for i128 {
    open spec fn val(self) -> int {
        self as int
    }

    open spec fn fits(v: int) -> bool {
        i128::MIN <= v <= i128::MAX
    }

    open spec fn of(v: int) -> i128 {
        v as i128
    }

    proof fn lemma_val(a: i128) {
    }

    proof fn lemma_of(v: int) {
    }

    proof fn lemma_identities_fit() {
    }

    fn zero() -> (r: i128) {
        0
    }

    fn one() -> (r: i128) {
        1
    }

    fn plus(self, rhs: i128) -> (r: i128) {
        self + rhs
    }

    fn times(self, rhs: i128) -> (r: i128) {
        self * rhs
    }
}

impl SignedScalar for i128 {
    fn negated(self) -> (r: i128) {
        -self
    }

    proof fn lemma_minus_one_fits() {
    }
}

impl Scalar for isize {
    open spec fn val(self) -> int {
        self as int
    }

    open spec fn fits(v: int) -> bool {
        isize::MIN <= v <= isize::MAX
    }

    open spec fn of(v: int) -> isize {
        v as isize
    }

    proof fn lemma_val(a: isize) {
    }

    proof fn lemma_of(v: int) {
    }

    proof fn lemma_identities_fit() {
    }

    fn zero() -> (r: isize) {
        0
    }

    fn one() -> (r: isize) {
        1
    }

    fn plus(self, rhs: isize) -> (r: isize) {
        self + rhs
    }

    fn times(self, rhs: isize) -> (r: isize) {
        self * rhs
    }
}

impl SignedScalar for isize {
    fn negated(self) -> (r: isize) {
        -self
    }

    proof fn lemma_minus_one_fits() {
    }
}

impl Scalar for u8 {
    open spec fn val(self) -> int {
        self as int
    }

    open spec fn fits(v: int) -> bool {
        0 <= v <= u8::MAX
    }

    open spec fn of(v: int) -> u8 {
        v as u8
    }

    proof fn lemma_val(a: u8) {
    }

    proof fn lemma_of(v: int) {
    }

    proof fn lemma_identities_fit() {
    }

    fn zero() -> (r: u8) {
        0
    }

    fn one() -> (r: u8) {
        1
    }

    fn plus(self, rhs: u8) -> (r: u8) {
        self + rhs
    }

    fn times(self, rhs: u8) -> (r: u8) {
        self * rhs
    }
}

impl Scalar for u16 {
    open spec fn val(self) -> int {
        self as int
    }

    open spec fn fits(v: int) -> bool {
        0 <= v <= u16::MAX
    }

    open spec fn of(v: int) -> u16 {
        v as u16
    }

    proof fn lemma_val(a: u16) {
    }

    proof fn lemma_of(v: int) {
    }

    proof fn lemma_identities_fit() {
    }

    fn zero() -> (r: u16) {
        0
    }

    fn one() -> (r: u16) {
        1
    }

    fn plus(self, rhs: u16) -> (r: u16) {
        self + rhs
    }

    fn times(self, rhs: u16) -> (r: u16) {
        self * rhs
    }
}

impl Scalar for u32 {
    open spec fn val(self) -> int {
        self as int
    }

    open spec fn fits(v: int) -> bool {
        0 <= v <= u32::MAX
    }

    open spec fn of(v: int) -> u32 {
        v as u32
    }

    proof fn lemma_val(a: u32) {
    }

    proof fn lemma_of(v: int) {
    }

    proof fn lemma_identities_fit() {
    }

    fn zero() -> (r: u32) {
        0
    }

    fn one() -> (r: u32) {
        1
    }

    fn plus(self, rhs: u32) -> (r: u32) {
        self + rhs
    }

    fn times(self, rhs: u32) -> (r: u32) {
        self * rhs
    }
}

impl Scalar for u64 {
    open spec fn val(self) -> int {
        self as int
    }

    open spec fn fits(v: int) -> bool {
        0 <= v <= u64::MAX
    }

    open spec fn of(v: int) -> u64 {
        v as u64
    }

    proof fn lemma_val(a: u64) {
    }

    proof fn lemma_of(v: int) {
    }

    proof fn lemma_identities_fit() {
    }

    fn zero() -> (r: u64) {
        0
    }

    fn one() -> (r: u64) {
        1
    }

    fn plus(self, rhs: u64) -> (r: u64) {
        self + rhs
    }

    fn times(self, rhs: u64) -> (r: u64) {
        self * rhs
    }
}

impl Scalar for u128 {
    open spec fn val(self) -> int {
        self as int
    }

    open spec fn fits(v: int) -> bool {
        0 <= v <= u128::MAX
    }

    open spec fn of(v: int) -> u128 {
        v as u128
    }

    proof fn lemma_val(a: u128) {
    }

    proof fn lemma_of(v: int) {
    }

    proof fn lemma_identities_fit() {
    }

    fn zero() -> (r: u128) {
        0
    }

    fn one() -> (r: u128) {
        1
    }

    fn plus(self, rhs: u128) -> (r: u128) {
        self + rhs
    }

    fn times(self, rhs: u128) -> (r: u128) {
        self * rhs
    }
}

impl Scalar for usize {
    open spec fn val(self) -> int {
        self as int
    }

    open spec fn fits(v: int) -> bool {
        0 <= v <= usize::MAX
    }

    open spec fn of(v: int) -> usize {
        v as usize
    }

    proof fn lemma_val(a: usize) {
    }

    proof fn lemma_of(v: int) {
    }

    proof fn lemma_identities_fit() {
    }

    fn zero() -> (r: usize) {
        0
    }

    fn one() -> (r: usize) {
        1
    }

    fn plus(self, rhs: usize) -> (r: usize) {
        self + rhs
    }

    fn times(self, rhs: usize) -> (r: usize) {
        self * rhs
    }
}

} // verus!
