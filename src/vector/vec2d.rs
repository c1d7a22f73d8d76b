//! Two-component vectors.
use vstd::prelude::*;

use vstd::std_specs::ops::{AddSpec, MulSpec, NegSpec};

use crate::scalar::{Scalar, SignedScalar};

verus! {

/// A two-dimensional vector `[x y]` with components of type `I`.
#[derive(Debug, Clone, Copy, PartialEq, Eq)]
pub struct Vec2D<I>(pub I, pub I);

impl<I> Vec2D<I> {
    /// Creates the vector `[x y]` from the tuple `(x, y)`.
    pub fn from_tuple(t: (I, I)) -> (r: Self)
        ensures
            r == Vec2D(t.0, t.1),
    {
        let (x, y) = t;
        Vec2D(x, y)
    }

    /// The `x` component of `[x y]`.
    pub fn x(self) -> (r: I)
        ensures
            r == self.0,
    {
        self.0
    }

    /// The `y` component of `[x y]`.
    pub fn y(self) -> (r: I)
        ensures
            r == self.1,
    {
        self.1
    }

    /// Applies `f` to each component: `[f(x) f(y)]`, with `f` called on `x` first.
    pub fn apply<F, U>(self, mut f: F) -> (r: Vec2D<U>)
        where
            F: FnMut(I) -> U,
        requires
            f.requires((self.0,)),
            f.requires((self.1,)),
        ensures
            f.ensures((self.0,), r.0),
            f.ensures((self.1,), r.1),
    {
        let x = f(self.0);
        let y = f(self.1);
        Vec2D(x, y)
    }

    /// Applies `f` to the corresponding components of `self` and `other`:
    /// `[f(a.x, b.x) f(a.y, b.y)]`, with `f` called on the `x` components first.
    pub fn zip_with<F, O, U>(self, other: Vec2D<O>, mut f: F) -> (r: Vec2D<U>)
        where
            F: FnMut(I, O) -> U,
        requires
            f.requires((self.0, other.0)),
            f.requires((self.1, other.1)),
        ensures
            f.ensures((self.0, other.0), r.0),
            f.ensures((self.1, other.1), r.1),
    {
        let x = f(self.0, other.0);
        let y = f(self.1, other.1);
        Vec2D(x, y)
    }
}

impl<I: Scalar> View for Vec2D<I> {
    type V = Vec2D<int>;

    /// The components as integers.
    open spec fn view(&self) -> Vec2D<int> {
        Vec2D(self.0.val(), self.1.val())
    }
}

impl<I: Scalar> Vec2D<I> {
    /// The additive identity vector `[0 0]`.
    pub fn zero() -> (r: Self)
        ensures
            r@ == Vec2D(0int, 0int),
    {
        Vec2D(I::zero(), I::zero())
    }

    /// The multiplicative identity vector `[1 1]`.
    pub fn one() -> (r: Self)
        ensures
            r@ == Vec2D(1int, 1int),
    {
        Vec2D(I::one(), I::one())
    }

    /// Two vectors with the same integer components are equal.
    pub proof fn lemma_view_injective(a: Self, b: Self)
        ensures
            a@ == b@ ==> a == b,
    {
        I::lemma_val(a.0);
        I::lemma_val(a.1);
        I::lemma_val(b.0);
        I::lemma_val(b.1);
    }
}

impl<I: Scalar> core::ops::Add for Vec2D<I> {
    type Output = Self;

    /// Component-wise sum `[a.x + b.x  a.y + b.y]`, computed with `zip_with`.
    fn add(self, rhs: Self) -> (r: Self) {
        let sum = |a: I, b: I| -> (c: I)
            requires
                I::fits(a.val() + b.val()),
            ensures
                c.val() == a.val() + b.val(),
            { a.plus(b) };
        let r = self.zip_with(rhs, sum);
        proof {
            I::lemma_val(r.0);
            I::lemma_val(r.1);
        }
        r
    }
}

impl<I: Scalar> vstd::std_specs::ops::AddSpecImpl for Vec2D<I> {
    open spec fn obeys_add_spec() -> bool {
        true
    }

    /// Both component sums fit in `I`.
    open spec fn add_req(self, rhs: Self) -> bool {
        &&& I::fits(self.0.val() + rhs.0.val())
        &&& I::fits(self.1.val() + rhs.1.val())
    }

    open spec fn add_spec(self, rhs: Self) -> Self {
        Vec2D(I::of(self.0.val() + rhs.0.val()), I::of(self.1.val() + rhs.1.val()))
    }
}

impl<I: Scalar> core::ops::Mul<I> for Vec2D<I> {
    type Output = Self;

    /// Scalar multiple `[x * k  y * k]`, computed with `apply`.
    fn mul(self, k: I) -> (r: Self) {
        let scale = |a: I| -> (c: I)
            requires
                I::fits(a.val() * k.val()),
            ensures
                c.val() == a.val() * k.val(),
            { a.times(k) };
        let r = self.apply(scale);
        proof {
            I::lemma_val(r.0);
            I::lemma_val(r.1);
        }
        r
    }
}

impl<I: Scalar> vstd::std_specs::ops::MulSpecImpl<I> for Vec2D<I> {
    open spec fn obeys_mul_spec() -> bool {
        true
    }

    /// Both component products fit in `I`.
    open spec fn mul_req(self, k: I) -> bool {
        &&& I::fits(self.0.val() * k.val())
        &&& I::fits(self.1.val() * k.val())
    }

    open spec fn mul_spec(self, k: I) -> Self {
        Vec2D(I::of(self.0.val() * k.val()), I::of(self.1.val() * k.val()))
    }
}

impl<I: SignedScalar> core::ops::Neg for Vec2D<I> {
    type Output = Self;

    /// Negation `[-x -y]`, computed as the multiple by minus one.
    fn neg(self) -> (r: Self) {
        proof {
            I::lemma_minus_one_fits();
        }
        let minus_one = I::one().negated();
        assert(self.0.val() * minus_one.val() == -self.0.val());
        assert(self.1.val() * minus_one.val() == -self.1.val());
        self * minus_one
    }
}

impl<I: SignedScalar> vstd::std_specs::ops::NegSpecImpl for Vec2D<I> {
    open spec fn obeys_neg_spec() -> bool {
        true
    }

    /// Both negated components fit in `I`.
    open spec fn neg_req(self) -> bool {
        &&& I::fits(-self.0.val())
        &&& I::fits(-self.1.val())
    }

    open spec fn neg_spec(self) -> Self {
        Vec2D(I::of(-self.0.val()), I::of(-self.1.val()))
    }
}

/// Adding the zero vector leaves a vector unchanged: `v + 0 == v`.
pub proof fn lemma_add_zero<I: Scalar>(v: Vec2D<I>, zero: Vec2D<I>)
    requires
        zero@ == Vec2D(0int, 0int),
    ensures
        v.add_req(zero),
        v.add_spec(zero) == v,
{
    I::lemma_val(v.0);
    I::lemma_val(v.1);
}

/// Multiplying by the scalar one leaves a vector unchanged: `v * 1 == v`.
pub proof fn lemma_mul_one<I: Scalar>(v: Vec2D<I>, one: I)
    requires
        one.val() == 1,
    ensures
        v.mul_req(one),
        v.mul_spec(one) == v,
{
    I::lemma_val(v.0);
    I::lemma_val(v.1);
}

/// Addition is commutative: `a + b == b + a`, and one side is defined when the other is.
pub proof fn lemma_add_commutative<I: Scalar>(a: Vec2D<I>, b: Vec2D<I>)
    ensures
        a.add_req(b) == b.add_req(a),
        a.add_spec(b) == b.add_spec(a),
{
    assert(a.0.val() + b.0.val() == b.0.val() + a.0.val());
    assert(a.1.val() + b.1.val() == b.1.val() + a.1.val());
}

/// A vector plus its negation is the zero vector: `v + (-v) == 0`.
pub proof fn lemma_add_neg<I: SignedScalar>(v: Vec2D<I>, zero: Vec2D<I>)
    requires
        v.neg_req(),
        zero@ == Vec2D(0int, 0int),
    ensures
        v.add_req(v.neg_spec()),
        v.add_spec(v.neg_spec()) == zero,
{
    I::lemma_of(-v.0.val());
    I::lemma_of(-v.1.val());
    I::lemma_identities_fit();
    I::lemma_of(0);
    Vec2D::lemma_view_injective(v.add_spec(v.neg_spec()), zero);
}

/// Scalar multiplication distributes over addition: `(a + b) * k == a * k + b * k`,
/// wherever both sides are defined.
pub proof fn lemma_mul_distributes<I: Scalar>(a: Vec2D<I>, b: Vec2D<I>, k: I)
    requires
        a.add_req(b),
        a.add_spec(b).mul_req(k),
        a.mul_req(k),
        b.mul_req(k),
    ensures
        a.mul_spec(k).add_req(b.mul_spec(k)),
        a.add_spec(b).mul_spec(k) == a.mul_spec(k).add_spec(b.mul_spec(k)),
{
    I::lemma_of(a.0.val() + b.0.val());
    I::lemma_of(a.1.val() + b.1.val());
    I::lemma_of(a.0.val() * k.val());
    I::lemma_of(a.1.val() * k.val());
    I::lemma_of(b.0.val() * k.val());
    I::lemma_of(b.1.val() * k.val());
    assert((a.0.val() + b.0.val()) * k.val() == a.0.val() * k.val() + b.0.val() * k.val())
        by (nonlinear_arith);
    assert((a.1.val() + b.1.val()) * k.val() == a.1.val() * k.val() + b.1.val() * k.val())
        by (nonlinear_arith);
}

} // verus!
