//! Positions in the plane.
use vstd::prelude::*;
use vstd::std_specs::cmp::PartialEqSpecImpl;
use vstd::std_specs::ops::{AddSpecImpl, SubSpecImpl};
use crate::geometry::angle::Angle;
use crate::geometry::base::Value;
use crate::geometry::delta::Delta;

verus! {

/// A position in the plane.
#[derive(Clone, Copy, Debug)]
pub struct Point<T: Value> {
    pub x: T,
    pub y: T,
}

impl<T: Value> Point<T> {
    pub fn new(x: T, y: T) -> (r: Point<T>)
        ensures
            r.x == x,
            r.y == y,
    {
        Point { x, y }
    }

    /// The point from which the coordinates are counted.
    pub open spec fn spec_origin() -> Point<T> {
        Point { x: T::zero_value(), y: T::zero_value() }
    }

    /// The point from which the coordinates are counted.
    pub fn origin() -> (r: Point<T>)
        ensures
            r == Self::spec_origin(),
    {
        Point { x: T::zero(), y: T::zero() }
    }

    /// The point halfway between the two.
    pub open spec fn spec_midpoint(self, other: Point<T>) -> Point<T> {
        Point {
            x: self.x.sum(other.x).quotient(T::two_value()),
            y: self.y.sum(other.y).quotient(T::two_value()),
        }
    }

    /// The point halfway between the two.
    pub fn midpoint(self, other: Point<T>) -> (r: Point<T>)
        ensures
            r == self.spec_midpoint(other),
    {
        proof {
            T::constants_in_order();
        }
        let two = T::two();
        Point { x: self.x.plus(other.x).over(two), y: self.y.plus(other.y).over(two) }
    }

    /// How far the two points are apart.
    pub open spec fn spec_distance(self, other: Point<T>) -> T {
        self.spec_sub(other).spec_magnitude()
    }

    /// How far the two points are apart.
    pub fn distance(self, other: Point<T>) -> (r: T)
        ensures
            r == self.spec_distance(other),
    {
        (self - other).magnitude()
    }

    /// The point turned counterclockwise by `angle` about `other`.
    pub open spec fn spec_rotate_about(self, other: Point<T>, angle: Angle<T>) -> Point<T> {
        other.spec_add(self.spec_sub(other).spec_rotate(angle))
    }

    /// The point turned counterclockwise by `angle` about `other`.
    pub fn rotate_about(self, other: Point<T>, angle: Angle<T>) -> (r: Point<T>)
        ensures
            r == self.spec_rotate_about(other, angle),
    {
        let delta = self - other;
        let new_delta = delta.rotate(angle);
        other + new_delta
    }

    /// Whether the two points have the same coordinates.
    pub open spec fn spec_eq(self, other: Point<T>) -> bool {
        self.x.rank() == other.x.rank() && self.y.rank() == other.y.rank()
    }

    /// The point reached from `self` by the step `other`.
    pub open spec fn spec_add(self, other: Delta<T>) -> Point<T> {
        Point { x: self.x.sum(other.dx), y: self.y.sum(other.dy) }
    }

    /// The step that leads from `other` to `self`.
    pub open spec fn spec_sub(self, other: Point<T>) -> Delta<T> {
        Delta { dx: self.x.difference(other.x), dy: self.y.difference(other.y) }
    }
}

impl<T: Value> PartialEqSpecImpl for Point<T> {
    open spec fn obeys_eq_spec() -> bool {
        true
    }

    open spec fn eq_spec(&self, other: &Point<T>) -> bool {
        self.spec_eq(*other)
    }
}

impl<T: Value> PartialEq for Point<T> {
    fn eq(&self, other: &Point<T>) -> (r: bool)
        ensures
            r == self.spec_eq(*other),
    {
        self.x.equals(other.x) && self.y.equals(other.y)
    }
}

impl<T: Value> AddSpecImpl<Delta<T>> for Point<T> {
    open spec fn obeys_add_spec() -> bool {
        true
    }

    open spec fn add_req(self, other: Delta<T>) -> bool {
        true
    }

    open spec fn add_spec(self, other: Delta<T>) -> Point<T> {
        self.spec_add(other)
    }
}

impl<T: Value> core::ops::Add<Delta<T>> for Point<T> {
    type Output = Point<T>;

    fn add(self, other: Delta<T>) -> (r: Point<T>)
        ensures
            r == self.spec_add(other),
    {
        Point { x: self.x.plus(other.dx), y: self.y.plus(other.dy) }
    }
}

impl<T: Value> SubSpecImpl for Point<T> {
    open spec fn obeys_sub_spec() -> bool {
        true
    }

    open spec fn sub_req(self, other: Point<T>) -> bool {
        true
    }

    open spec fn sub_spec(self, other: Point<T>) -> Delta<T> {
        self.spec_sub(other)
    }
}

impl<T: Value> core::ops::Sub for Point<T> {
    type Output = Delta<T>;

    fn sub(self, other: Point<T>) -> (r: Delta<T>)
        ensures
            r == self.spec_sub(other),
    {
        Delta { dx: self.x.minus(other.x), dy: self.y.minus(other.y) }
    }
}

} // verus!
