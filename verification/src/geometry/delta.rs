//! Vectors in the plane.
use vstd::prelude::*;
use vstd::std_specs::cmp::PartialEqSpecImpl;
use vstd::std_specs::ops::{AddSpecImpl, DivSpecImpl, MulSpecImpl, NegSpecImpl, SubSpecImpl};
use crate::geometry::angle::Angle;
use crate::geometry::base::Value;

verus! {

/// A vector: the step from one point to another.
#[derive(Clone, Copy, Debug)]
pub struct Delta<T: Value> {
    pub dx: T,
    pub dy: T,
}

/// No square is negative.
pub proof fn lemma_square_is_not_negative<T: Value>(x: T)
    ensures
        x.product(x).rank() >= 0,
{
    T::constants_in_order();
    T::product_of_zero(x);
    if x.rank() >= 0 {
        T::product_keeps_order(T::zero_value(), x, x);
    } else {
        T::product_keeps_order(x, T::zero_value(), x);
    }
}

impl<T: Value> Delta<T> {
    pub fn new(dx: T, dy: T) -> (r: Delta<T>)
        ensures
            r.dx == dx,
            r.dy == dy,
    {
        Delta { dx, dy }
    }

    /// The vector of the given length that points along `angle`.
    pub open spec fn spec_magnitude_angle(magnitude: T, angle: Angle<T>) -> Delta<T> {
        Delta {
            dx: magnitude.product(angle.0.cosine()),
            dy: magnitude.product(angle.0.sine()),
        }
    }

    /// The vector of the given length that points along `angle`.
    pub fn magnitude_angle(magnitude: T, angle: Angle<T>) -> (r: Delta<T>)
        ensures
            r == Self::spec_magnitude_angle(magnitude, angle),
    {
        Delta { dx: magnitude.times(angle.0.cos()), dy: magnitude.times(angle.0.sin()) }
    }

    /// The direction in which the vector points.
    pub open spec fn spec_angle(self) -> Angle<T> {
        Angle::of_delta(self)
    }

    /// The direction in which the vector points.
    pub fn angle(self) -> (r: Angle<T>)
        ensures
            r == self.spec_angle(),
            r.wf(),
    {
        Angle::from(self)
    }

    /// The Euclidean length.
    pub open spec fn spec_magnitude(self) -> T {
        self.dx.product(self.dx).sum(self.dy.product(self.dy)).root()
    }

    /// The Euclidean length.
    pub fn magnitude(self) -> (r: T)
        ensures
            r == self.spec_magnitude(),
    {
        proof {
            lemma_square_is_not_negative(self.dx);
            lemma_square_is_not_negative(self.dy);
            T::sum_of_non_negatives(self.dx.product(self.dx), self.dy.product(self.dy));
        }
        self.dx.times(self.dx).plus(self.dy.times(self.dy)).sqrt()
    }

    /// For the step from the centre of a circle to a point on it: how far
    /// along the circle the point lies from the circle's point of angle zero.
    pub open spec fn spec_arc_length(self) -> T {
        self.spec_magnitude().product(self.spec_angle().0)
    }

    /// For the step from the centre of a circle to a point on it: how far
    /// along the circle the point lies from the circle's point of angle zero.
    pub fn arc_length(self) -> (r: T)
        ensures
            r == self.spec_arc_length(),
    {
        self.magnitude().times(self.angle().0)
    }

    /// The vector turned counterclockwise by `angle`.
    pub open spec fn spec_rotate(self, angle: Angle<T>) -> Delta<T> {
        let sin = angle.0.sine();
        let cos = angle.0.cosine();
        Delta {
            dx: self.dx.product(cos).difference(self.dy.product(sin)),
            dy: self.dx.product(sin).sum(self.dy.product(cos)),
        }
    }

    /// The vector turned counterclockwise by `angle`.
    pub fn rotate(self, angle: Angle<T>) -> (r: Delta<T>)
        ensures
            r == self.spec_rotate(angle),
    {
        let sin = angle.0.sin();
        let cos = angle.0.cos();
        Delta {
            dx: self.dx.times(cos).minus(self.dy.times(sin)),
            dy: self.dx.times(sin).plus(self.dy.times(cos)),
        }
    }

    /// Whether the two vectors have the same components.
    pub open spec fn spec_eq(self, other: Delta<T>) -> bool {
        self.dx.rank() == other.dx.rank() && self.dy.rank() == other.dy.rank()
    }

    pub open spec fn spec_add(self, rhs: Delta<T>) -> Delta<T> {
        Delta { dx: self.dx.sum(rhs.dx), dy: self.dy.sum(rhs.dy) }
    }

    pub open spec fn spec_sub(self, rhs: Delta<T>) -> Delta<T> {
        Delta { dx: self.dx.difference(rhs.dx), dy: self.dy.difference(rhs.dy) }
    }

    pub open spec fn spec_neg(self) -> Delta<T> {
        Delta { dx: self.dx.negation(), dy: self.dy.negation() }
    }

    /// The vector stretched by `factor`.
    pub open spec fn spec_mul(self, factor: T) -> Delta<T> {
        Delta { dx: self.dx.product(factor), dy: self.dy.product(factor) }
    }

    /// The vector shrunk by `divisor`, which is not zero.
    pub open spec fn spec_div(self, divisor: T) -> Delta<T> {
        Delta { dx: self.dx.quotient(divisor), dy: self.dy.quotient(divisor) }
    }
}

impl<T: Value> PartialEqSpecImpl for Delta<T> {
    open spec fn obeys_eq_spec() -> bool {
        true
    }

    open spec fn eq_spec(&self, other: &Delta<T>) -> bool {
        self.spec_eq(*other)
    }
}

impl<T: Value> PartialEq for Delta<T> {
    fn eq(&self, other: &Delta<T>) -> (r: bool)
        ensures
            r == self.spec_eq(*other),
    {
        self.dx.equals(other.dx) && self.dy.equals(other.dy)
    }
}

impl<T: Value> AddSpecImpl for Delta<T> {
    open spec fn obeys_add_spec() -> bool {
        true
    }

    open spec fn add_req(self, rhs: Delta<T>) -> bool {
        true
    }

    open spec fn add_spec(self, rhs: Delta<T>) -> Delta<T> {
        self.spec_add(rhs)
    }
}

impl<T: Value> core::ops::Add for Delta<T> {
    type Output = Delta<T>;

    fn add(self, rhs: Delta<T>) -> (r: Delta<T>)
        ensures
            r == self.spec_add(rhs),
    {
        Delta { dx: self.dx.plus(rhs.dx), dy: self.dy.plus(rhs.dy) }
    }
}

impl<T: Value> SubSpecImpl for Delta<T> {
    open spec fn obeys_sub_spec() -> bool {
        true
    }

    open spec fn sub_req(self, rhs: Delta<T>) -> bool {
        true
    }

    open spec fn sub_spec(self, rhs: Delta<T>) -> Delta<T> {
        self.spec_sub(rhs)
    }
}

impl<T: Value> core::ops::Sub for Delta<T> {
    type Output = Delta<T>;

    fn sub(self, rhs: Delta<T>) -> (r: Delta<T>)
        ensures
            r == self.spec_sub(rhs),
    {
        Delta { dx: self.dx.minus(rhs.dx), dy: self.dy.minus(rhs.dy) }
    }
}

impl<T: Value> NegSpecImpl for Delta<T> {
    open spec fn obeys_neg_spec() -> bool {
        true
    }

    open spec fn neg_req(self) -> bool {
        true
    }

    open spec fn neg_spec(self) -> Delta<T> {
        self.spec_neg()
    }
}

impl<T: Value> core::ops::Neg for Delta<T> {
    type Output = Delta<T>;

    fn neg(self) -> (r: Delta<T>)
        ensures
            r == self.spec_neg(),
    {
        Delta { dx: self.dx.neg(), dy: self.dy.neg() }
    }
}

impl<T: Value> MulSpecImpl<T> for Delta<T> {
    open spec fn obeys_mul_spec() -> bool {
        true
    }

    open spec fn mul_req(self, factor: T) -> bool {
        true
    }

    open spec fn mul_spec(self, factor: T) -> Delta<T> {
        self.spec_mul(factor)
    }
}

impl<T: Value> core::ops::Mul<T> for Delta<T> {
    type Output = Delta<T>;

    fn mul(self, factor: T) -> (r: Delta<T>)
        ensures
            r == self.spec_mul(factor),
    {
        Delta { dx: self.dx.times(factor), dy: self.dy.times(factor) }
    }
}

impl<T: Value> DivSpecImpl<T> for Delta<T> {
    open spec fn obeys_div_spec() -> bool {
        true
    }

    open spec fn div_req(self, divisor: T) -> bool {
        divisor.rank() != 0
    }

    open spec fn div_spec(self, divisor: T) -> Delta<T> {
        self.spec_div(divisor)
    }
}

impl<T: Value> core::ops::Div<T> for Delta<T> {
    type Output = Delta<T>;

    fn div(self, divisor: T) -> (r: Delta<T>)
        ensures
            r == self.spec_div(divisor),
    {
        Delta { dx: self.dx.over(divisor), dy: self.dy.over(divisor) }
    }
}

} // verus!
