//! The scalar domain that all geometry is generic over.
use vstd::prelude::*;

verus! {

/// A finite scalar: a real number of limited precision, never NaN and never
/// infinite.
///
/// The geometry computes with scalars through this trait alone, and proves
/// what it does from what the trait says. An implementation owes it this:
///
/// - Every operation is a function of its operands: the same operands give
///   the same scalar, always and everywhere. The contracts name that scalar
///   (`sum`, `product`, `sine`, ...) and do not say how it is rounded.
/// - The scalars are totally ordered, and `less` and `equals` decide that
///   order. `rank` maps the scalars into the integers so that a smaller
///   scalar has a smaller rank and equal scalars, such as the two zeros,
///   have the same rank; zero has rank 0.
/// - Rounding respects the order as far as the laws say that are stated
///   below as proof functions.
/// - Every value is finite. Division and remainder ask for a divisor that
///   is not zero, the root for a scalar that is not negative. Where an
///   operation still has no finite result, by overflow, it aborts instead of
///   returning, so the contracts speak of the scalars that are returned.
pub trait Value: Copy + Sized {
    /// The place of `self` in the order of all scalars, counted from zero.
    spec fn rank(self) -> i64;

    /// What `plus` returns.
    spec fn sum(self, rhs: Self) -> Self;

    /// What `minus` returns.
    spec fn difference(self, rhs: Self) -> Self;

    /// What `times` returns.
    spec fn product(self, rhs: Self) -> Self;

    /// What `over` returns.
    spec fn quotient(self, rhs: Self) -> Self;

    /// What `modulo` returns.
    spec fn remainder(self, rhs: Self) -> Self;

    /// What `neg` returns.
    spec fn negation(self) -> Self;

    /// What `sqrt` returns.
    spec fn root(self) -> Self;

    /// What `sin` returns.
    spec fn sine(self) -> Self;

    /// What `cos` returns.
    spec fn cosine(self) -> Self;

    /// What `atan2` returns, `self` being the ordinate and `x` the abscissa.
    spec fn arctangent(self, x: Self) -> Self;

    /// What `zero` returns.
    spec fn zero_value() -> Self;

    /// What `one` returns.
    spec fn one_value() -> Self;

    /// What `two` returns.
    spec fn two_value() -> Self;

    /// What `half_pi` returns.
    spec fn half_pi_value() -> Self;

    /// What `pi` returns.
    spec fn pi_value() -> Self;

    /// What `two_pi` returns.
    spec fn two_pi_value() -> Self;

    /// What `is_near` returns.
    spec fn near(self, rhs: Self) -> bool;

    /// The constants stand in their natural order: zero has rank 0, and
    /// 0 < 1 < 2 and 0 < pi/2 < pi < 2 pi.
    proof fn constants_in_order()
        ensures
            Self::zero_value().rank() == 0,
            0 < Self::one_value().rank() < Self::two_value().rank(),
            0 < Self::half_pi_value().rank() < Self::pi_value().rank(),
            Self::pi_value().rank() < Self::two_pi_value().rank(),
    ;

    /// The negative of a scalar stands as far below zero as the scalar stands
    /// above it.
    proof fn negation_mirrors(x: Self)
        ensures
            x.negation().rank() + x.rank() == 0,
    ;

    /// Multiplying by a scalar that is not negative keeps the order of two
    /// scalars, multiplying by one that is not positive turns it round;
    /// either way the two products may come out equal.
    proof fn product_keeps_order(a: Self, b: Self, c: Self)
        requires
            a.rank() <= b.rank(),
        ensures
            c.rank() >= 0 ==> a.product(c).rank() <= b.product(c).rank(),
            c.rank() <= 0 ==> a.product(c).rank() >= b.product(c).rank(),
    ;

    /// Zero times any scalar is zero.
    proof fn product_of_zero(c: Self)
        ensures
            Self::zero_value().product(c).rank() == 0,
    ;

    /// A difference is below, at or above zero as the first scalar is below,
    /// equal to or above the second: no difference of two different scalars
    /// is rounded to zero.
    proof fn difference_sign(a: Self, b: Self)
        ensures
            a.difference(b).rank() < 0 <==> a.rank() < b.rank(),
            a.difference(b).rank() == 0 <==> a.rank() == b.rank(),
    ;

    /// The sum of two scalars that are not negative is not negative.
    proof fn sum_of_non_negatives(a: Self, b: Self)
        requires
            a.rank() >= 0,
            b.rank() >= 0,
        ensures
            a.sum(b).rank() >= 0,
    ;

    fn zero() -> (r: Self)
        ensures
            r == Self::zero_value(),
    ;

    fn one() -> (r: Self)
        ensures
            r == Self::one_value(),
    ;

    fn two() -> (r: Self)
        ensures
            r == Self::two_value(),
    ;

    /// The scalar nearest to a quarter turn in radians.
    fn half_pi() -> (r: Self)
        ensures
            r == Self::half_pi_value(),
    ;

    /// The scalar nearest to a half turn in radians.
    fn pi() -> (r: Self)
        ensures
            r == Self::pi_value(),
    ;

    /// The scalar nearest to a full turn in radians.
    fn two_pi() -> (r: Self)
        ensures
            r == Self::two_pi_value(),
    ;

    fn plus(self, rhs: Self) -> (r: Self)
        ensures
            r == self.sum(rhs),
    ;

    fn minus(self, rhs: Self) -> (r: Self)
        ensures
            r == self.difference(rhs),
    ;

    fn times(self, rhs: Self) -> (r: Self)
        ensures
            r == self.product(rhs),
    ;

    /// `self` divided by `rhs`, which is not zero.
    fn over(self, rhs: Self) -> (r: Self)
        requires
            rhs.rank() != 0,
        ensures
            r == self.quotient(rhs),
    ;

    /// The remainder of the division of `self` by `rhs`, which is not zero.
    fn modulo(self, rhs: Self) -> (r: Self)
        requires
            rhs.rank() != 0,
        ensures
            r == self.remainder(rhs),
    ;

    fn neg(self) -> (r: Self)
        ensures
            r == self.negation(),
    ;

    /// The root of `self`, which is not negative.
    fn sqrt(self) -> (r: Self)
        requires
            self.rank() >= 0,
        ensures
            r == self.root(),
    ;

    fn sin(self) -> (r: Self)
        ensures
            r == self.sine(),
    ;

    fn cos(self) -> (r: Self)
        ensures
            r == self.cosine(),
    ;

    /// The angle in radians of the vector `(x, self)`.
    fn atan2(self, x: Self) -> (r: Self)
        ensures
            r == self.arctangent(x),
    ;

    /// Whether `self` is the smaller scalar.
    fn less(self, rhs: Self) -> (b: bool)
        ensures
            b == (self.rank() < rhs.rank()),
    ;

    /// Whether the two scalars are the same number.
    fn equals(self, rhs: Self) -> (b: bool)
        ensures
            b == (self.rank() == rhs.rank()),
    ;

    /// Whether the two scalars are the same number up to the rounding of one
    /// operation.
    fn is_near(self, rhs: Self) -> (b: bool)
        ensures
            b == self.near(rhs),
    ;
}

/// The smaller of two scalars, the first where they are equal.
pub open spec fn spec_smaller<T: Value>(a: T, b: T) -> T {
    if b.rank() < a.rank() {
        b
    } else {
        a
    }
}

/// The smaller of two scalars, the first where they are equal.
pub fn smaller<T: Value>(a: T, b: T) -> (r: T)
    ensures
        r == spec_smaller(a, b),
{
    if b.less(a) {
        b
    } else {
        a
    }
}

} // verus!
