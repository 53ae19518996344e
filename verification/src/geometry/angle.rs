//! Angles and signed angular differences.
use vstd::prelude::*;
use vstd::std_specs::cmp::PartialEqSpecImpl;
use vstd::std_specs::convert::FromSpecImpl;
use vstd::std_specs::ops::{AddSpecImpl, MulSpecImpl, NegSpecImpl, SubSpecImpl};
use crate::geometry::base::Value;
use crate::geometry::delta::Delta;

verus! {

/// A direction in the plane: radians in `[0, 2 pi)`.
///
/// Two angles are never added; an angle is moved by an [`AngleDiff`].
#[derive(Clone, Copy, Debug)]
pub struct Angle<T: Value>(pub T);

/// A signed rotation in radians.
#[derive(Clone, Copy, Debug)]
pub struct AngleDiff<T: Value>(pub T);

/// What is measured in radians.
pub trait Angular<T: Value> {
    fn radians(self) -> T;
}

/// The sense of the shortest rotation from one angle to another.
#[derive(Clone, Copy, Debug, PartialEq, Eq, Structural)]
pub enum Direction {
    /// The angles are a half turn apart: neither sense is shorter.
    Neither,
    Clockwise,
    Counterclockwise,
}

impl Direction {
    /// The other sense; none where there is none.
    pub open spec fn spec_opposite(self) -> Direction {
        match self {
            Direction::Neither => Direction::Neither,
            Direction::Clockwise => Direction::Counterclockwise,
            Direction::Counterclockwise => Direction::Clockwise,
        }
    }

    /// The other sense; none where there is none.
    pub fn opposite(self) -> (r: Direction)
        ensures
            r == self.spec_opposite(),
    {
        match self {
            Direction::Neither => Direction::Neither,
            Direction::Clockwise => Direction::Counterclockwise,
            Direction::Counterclockwise => Direction::Clockwise,
        }
    }
}

/// Whether `x` lies in `[0, 2 pi)`.
pub open spec fn in_turn<T: Value>(x: T) -> bool {
    0 <= x.rank() < T::two_pi_value().rank()
}

/// Whether `x` lies in `(-pi, pi]`.
pub open spec fn in_half_turn<T: Value>(x: T) -> bool {
    T::pi_value().negation().rank() < x.rank() <= T::pi_value().rank()
}

/// The radians in `[0, 2 pi)` of the direction that `x` radians point in.
///
/// The remainder of `x` by a full turn, raised by a full turn where it is
/// negative; zero where rounding carries that out of the range.
pub open spec fn spec_turn<T: Value>(x: T) -> T {
    let full = T::two_pi_value();
    let r = x.remainder(full);
    let s = if r.rank() < 0 {
        r.sum(full)
    } else {
        r
    };
    if in_turn(s) {
        s
    } else {
        T::zero_value()
    }
}

/// The radians in `[0, 2 pi)` of the direction that `x` radians point in.
pub fn turn<T: Value>(x: T) -> (r: T)
    ensures
        r == spec_turn(x),
        in_turn(r),
{
    proof {
        T::constants_in_order();
    }
    let full = T::two_pi();
    let zero = T::zero();
    let r = x.modulo(full);
    let s = if r.less(zero) {
        r.plus(full)
    } else {
        r
    };
    if !s.less(zero) && s.less(full) {
        s
    } else {
        zero
    }
}

/// The shortest signed rotation, in `(-pi, pi]`, by which `hi` radians lead
/// `lo` radians: `((hi - lo + pi) mod 2 pi) - pi`, and a half turn where that
/// leaves the range.
pub open spec fn spec_lead<T: Value>(hi: T, lo: T) -> T {
    let half = T::pi_value();
    let r = spec_turn(hi.difference(lo).sum(half)).difference(half);
    if in_half_turn(r) {
        r
    } else {
        half
    }
}

/// The shortest signed rotation by which `hi` radians lead `lo` radians.
pub fn lead<T: Value>(hi: T, lo: T) -> (r: T)
    ensures
        r == spec_lead(hi, lo),
        in_half_turn(r),
{
    proof {
        T::constants_in_order();
        T::negation_mirrors(T::pi_value());
    }
    let half = T::pi();
    let r = turn(hi.minus(lo).plus(half)).minus(half);
    if half.neg().less(r) && !half.less(r) {
        r
    } else {
        half
    }
}

impl<T: Value> Angular<T> for Angle<T> {
    fn radians(self) -> (r: T)
        ensures
            r == self.0,
    {
        self.0
    }
}

impl<T: Value> Angular<T> for AngleDiff<T> {
    fn radians(self) -> (r: T)
        ensures
            r == self.0,
    {
        self.0
    }
}

impl<T: Value> AngleDiff<T> {
    /// Whether the rotation is a shortest one: in `(-pi, pi]`.
    pub open spec fn is_shortest(self) -> bool {
        in_half_turn(self.0)
    }

    /// The same rotation in the other sense; a half turn stays a half turn.
    pub open spec fn spec_reversed(self) -> AngleDiff<T> {
        if self.0.rank() == T::pi_value().rank() {
            self
        } else {
            self.spec_neg()
        }
    }

    /// The same rotation in the other sense; a half turn stays a half turn.
    pub fn reversed(self) -> (r: AngleDiff<T>)
        ensures
            r == self.spec_reversed(),
            self.is_shortest() ==> r.is_shortest(),
    {
        proof {
            T::negation_mirrors(T::pi_value());
            T::negation_mirrors(self.0);
        }
        if self.0.equals(T::pi()) {
            self
        } else {
            AngleDiff(self.0.neg())
        }
    }

    /// The rotation of the same size in the other sense.
    pub open spec fn spec_neg(self) -> AngleDiff<T> {
        AngleDiff(self.0.negation())
    }

    /// The two rotations one after the other.
    pub open spec fn spec_add(self, rhs: AngleDiff<T>) -> AngleDiff<T> {
        AngleDiff(self.0.sum(rhs.0))
    }

    /// The size of the rotation, whatever its sense.
    pub open spec fn spec_magnitude(self) -> T {
        if self.0.rank() < 0 {
            self.0.negation()
        } else {
            self.0
        }
    }

    /// The size of the rotation, whatever its sense.
    pub fn magnitude(self) -> (r: T)
        ensures
            r == self.spec_magnitude(),
            r.rank() >= 0,
    {
        proof {
            T::constants_in_order();
            T::negation_mirrors(self.0);
        }
        if self.0.less(T::zero()) {
            self.0.neg()
        } else {
            self.0
        }
    }
}

impl<T: Value> NegSpecImpl for AngleDiff<T> {
    open spec fn obeys_neg_spec() -> bool {
        true
    }

    open spec fn neg_req(self) -> bool {
        true
    }

    open spec fn neg_spec(self) -> AngleDiff<T> {
        self.spec_neg()
    }
}

impl<T: Value> core::ops::Neg for AngleDiff<T> {
    type Output = AngleDiff<T>;

    fn neg(self) -> (r: AngleDiff<T>)
        ensures
            r == self.spec_neg(),
    {
        AngleDiff(self.0.neg())
    }
}

impl<T: Value> AddSpecImpl for AngleDiff<T> {
    open spec fn obeys_add_spec() -> bool {
        true
    }

    open spec fn add_req(self, rhs: AngleDiff<T>) -> bool {
        true
    }

    open spec fn add_spec(self, rhs: AngleDiff<T>) -> AngleDiff<T> {
        self.spec_add(rhs)
    }
}

impl<T: Value> core::ops::Add for AngleDiff<T> {
    type Output = AngleDiff<T>;

    fn add(self, rhs: AngleDiff<T>) -> (r: AngleDiff<T>)
        ensures
            r == self.spec_add(rhs),
    {
        AngleDiff(self.0.plus(rhs.0))
    }
}

impl<T: Value> FromSpecImpl<Angle<T>> for AngleDiff<T> {
    open spec fn obeys_from_spec() -> bool {
        true
    }

    open spec fn from_spec(angle: Angle<T>) -> AngleDiff<T> {
        AngleDiff(angle.0)
    }
}

impl<T: Value> From<Angle<T>> for AngleDiff<T> {
    fn from(angle: Angle<T>) -> (r: AngleDiff<T>)
        ensures
            r == AngleDiff(angle.0),
    {
        AngleDiff(angle.0)
    }
}

impl<T: Value> Angle<T> {
    /// Whether the radians lie in `[0, 2 pi)`, as those of every angle that
    /// this library makes do.
    pub open spec fn wf(self) -> bool {
        in_turn(self.0)
    }

    /// The angle of `theta` radians, which lie in `[0, 2 pi)`.
    pub fn new(theta: T) -> (r: Angle<T>)
        requires
            in_turn(theta),
        ensures
            r.0 == theta,
            r.wf(),
    {
        Angle(theta)
    }

    /// The angle of `theta` radians, if they lie in `[0, 2 pi)`.
    pub fn checked(theta: T) -> (r: Option<Angle<T>>)
        ensures
            in_turn(theta) ==> r == Some(Angle(theta)),
            !in_turn(theta) ==> r.is_none(),
    {
        proof {
            T::constants_in_order();
        }
        if !theta.less(T::zero()) && theta.less(T::two_pi()) {
            Some(Angle::new(theta))
        } else {
            None
        }
    }

    /// The direction mirrored in the axis of angle zero.
    pub open spec fn spec_neg(self) -> Angle<T> {
        Angle(spec_turn(T::two_pi_value().difference(self.0)))
    }

    /// The angle moved by the rotation, brought back into `[0, 2 pi)`.
    pub open spec fn spec_add(self, diff: AngleDiff<T>) -> Angle<T> {
        Angle(spec_turn(diff.0.sum(self.0)))
    }

    /// The shortest signed rotation that leads from `other` to `self`, in
    /// `(-pi, pi]`: the lead of the larger radians over the smaller, reversed
    /// where `self` has the smaller.
    pub open spec fn spec_sub(self, other: Angle<T>) -> AngleDiff<T> {
        if other.0.rank() <= self.0.rank() {
            AngleDiff(spec_lead(self.0, other.0))
        } else {
            AngleDiff(spec_lead(other.0, self.0)).spec_reversed()
        }
    }

    /// The angle of `value` times the radians, brought back into `[0, 2 pi)`.
    pub open spec fn spec_scaled(self, value: T) -> Angle<T> {
        Angle(spec_turn(self.0.product(value)))
    }

    /// Whether the two angles point the same way.
    pub open spec fn spec_eq(self, other: Angle<T>) -> bool {
        spec_turn(self.0).rank() == spec_turn(other.0).rank()
    }

    /// The direction in which a vector points.
    pub open spec fn of_delta(item: Delta<T>) -> Angle<T> {
        Angle(spec_turn(item.dy.arctangent(item.dx)))
    }

    /// The direction reached from angle zero by a rotation.
    pub open spec fn of_diff(diff: AngleDiff<T>) -> Angle<T> {
        Angle(spec_turn(diff.0))
    }

    /// The sense of a shortest rotation: none for a half turn, counterclockwise
    /// for a negative one, clockwise for the others.
    pub open spec fn sense(d: AngleDiff<T>) -> Direction {
        if d.0.rank() == T::pi_value().rank() {
            Direction::Neither
        } else if d.0.rank() < 0 {
            Direction::Counterclockwise
        } else {
            Direction::Clockwise
        }
    }

    /// The sense of the shortest rotation from `self` to `other`.
    pub open spec fn spec_direction(self, other: Angle<T>) -> Direction {
        Self::sense(self.spec_sub(other))
    }

    /// The sense of the shortest rotation from `self` to `other`.
    pub fn direction(self, other: Angle<T>) -> (r: Direction)
        ensures
            r == self.spec_direction(other),
    {
        proof {
            T::constants_in_order();
        }
        let d = self - other;
        if d.0.equals(T::pi()) {
            Direction::Neither
        } else if d.0.less(T::zero()) {
            Direction::Counterclockwise
        } else {
            Direction::Clockwise
        }
    }

    /// Whether the shortest rotation from `start` to `self` has the sense of
    /// the one from `start` to `stop`.
    pub open spec fn spec_between(self, start: Angle<T>, stop: Angle<T>) -> bool {
        start.spec_direction(self) == start.spec_direction(stop)
    }

    /// Whether the shortest rotation from `start` to `self` has the sense of
    /// the one from `start` to `stop`.
    pub fn between(self, start: Angle<T>, stop: Angle<T>) -> (r: bool)
        ensures
            r == self.spec_between(start, stop),
    {
        start.direction(self) == start.direction(stop)
    }
}

/// The difference of two angles is a shortest rotation: it lies in
/// `(-pi, pi]`, whatever the two angles are.
pub proof fn law_difference_is_shortest<T: Value>(a: Angle<T>, b: Angle<T>)
    ensures
        a.spec_sub(b).is_shortest(),
{
    T::constants_in_order();
    T::negation_mirrors(T::pi_value());
    T::negation_mirrors(spec_lead(b.0, a.0));
}

/// The shortest rotation between two angles has no sense exactly where the
/// size of their difference is a half turn.
pub proof fn law_direction_neither_iff_half_turn<T: Value>(a: Angle<T>, b: Angle<T>)
    ensures
        a.spec_direction(b) == Direction::Neither <==> a.spec_sub(b).spec_magnitude().rank()
            == T::pi_value().rank(),
{
    law_difference_is_shortest(a, b);
    T::constants_in_order();
    T::negation_mirrors(T::pi_value());
    T::negation_mirrors(a.spec_sub(b).0);
}

/// The shortest rotation from `b` to `a` has the sense opposite to that of
/// the one from `a` to `b`, where the two angles differ and their difference
/// is not rounded to zero.
pub proof fn law_directions_oppose<T: Value>(a: Angle<T>, b: Angle<T>)
    requires
        a.0.rank() != b.0.rank(),
        a.spec_sub(b).0.rank() != 0,
    ensures
        b.spec_direction(a) == a.spec_direction(b).spec_opposite(),
{
    T::constants_in_order();
    T::negation_mirrors(T::pi_value());
    T::negation_mirrors(spec_lead(a.0, b.0));
    T::negation_mirrors(spec_lead(b.0, a.0));
}

impl<T: Value> NegSpecImpl for Angle<T> {
    open spec fn obeys_neg_spec() -> bool {
        true
    }

    open spec fn neg_req(self) -> bool {
        true
    }

    open spec fn neg_spec(self) -> Angle<T> {
        self.spec_neg()
    }
}

impl<T: Value> core::ops::Neg for Angle<T> {
    type Output = Angle<T>;

    fn neg(self) -> (r: Angle<T>)
        ensures
            r == self.spec_neg(),
            r.wf(),
    {
        Angle(turn(T::two_pi().minus(self.0)))
    }
}

impl<T: Value> AddSpecImpl<AngleDiff<T>> for Angle<T> {
    open spec fn obeys_add_spec() -> bool {
        true
    }

    open spec fn add_req(self, diff: AngleDiff<T>) -> bool {
        true
    }

    open spec fn add_spec(self, diff: AngleDiff<T>) -> Angle<T> {
        self.spec_add(diff)
    }
}

impl<T: Value> core::ops::Add<AngleDiff<T>> for Angle<T> {
    type Output = Angle<T>;

    fn add(self, diff: AngleDiff<T>) -> (r: Angle<T>)
        ensures
            r == self.spec_add(diff),
            r.wf(),
    {
        Angle(turn(diff.0.plus(self.0)))
    }
}

impl<T: Value> SubSpecImpl for Angle<T> {
    open spec fn obeys_sub_spec() -> bool {
        true
    }

    open spec fn sub_req(self, other: Angle<T>) -> bool {
        true
    }

    open spec fn sub_spec(self, other: Angle<T>) -> AngleDiff<T> {
        self.spec_sub(other)
    }
}

impl<T: Value> core::ops::Sub for Angle<T> {
    type Output = AngleDiff<T>;

    fn sub(self, other: Angle<T>) -> (r: AngleDiff<T>)
        ensures
            r == self.spec_sub(other),
            r.is_shortest(),
    {
        if !self.0.less(other.0) {
            AngleDiff(lead(self.0, other.0))
        } else {
            AngleDiff(lead(other.0, self.0)).reversed()
        }
    }
}

impl<T: Value> MulSpecImpl<T> for Angle<T> {
    open spec fn obeys_mul_spec() -> bool {
        true
    }

    open spec fn mul_req(self, value: T) -> bool {
        true
    }

    open spec fn mul_spec(self, value: T) -> Angle<T> {
        self.spec_scaled(value)
    }
}

impl<T: Value> core::ops::Mul<T> for Angle<T> {
    type Output = Angle<T>;

    fn mul(self, value: T) -> (r: Angle<T>)
        ensures
            r == self.spec_scaled(value),
            r.wf(),
    {
        Angle(turn(self.0.times(value)))
    }
}

impl<T: Value> PartialEqSpecImpl for Angle<T> {
    open spec fn obeys_eq_spec() -> bool {
        true
    }

    open spec fn eq_spec(&self, other: &Angle<T>) -> bool {
        self.spec_eq(*other)
    }
}

impl<T: Value> PartialEq for Angle<T> {
    fn eq(&self, other: &Angle<T>) -> (r: bool)
        ensures
            r == self.spec_eq(*other),
    {
        turn(self.0).equals(turn(other.0))
    }
}

impl<T: Value> FromSpecImpl<Delta<T>> for Angle<T> {
    open spec fn obeys_from_spec() -> bool {
        true
    }

    open spec fn from_spec(item: Delta<T>) -> Angle<T> {
        Angle::of_delta(item)
    }
}

impl<T: Value> From<Delta<T>> for Angle<T> {
    fn from(item: Delta<T>) -> (r: Angle<T>)
        ensures
            r == Angle::of_delta(item),
            r.wf(),
    {
        Angle(turn(item.dy.atan2(item.dx)))
    }
}

impl<T: Value> FromSpecImpl<AngleDiff<T>> for Angle<T> {
    open spec fn obeys_from_spec() -> bool {
        true
    }

    open spec fn from_spec(diff: AngleDiff<T>) -> Angle<T> {
        Angle::of_diff(diff)
    }
}

impl<T: Value> From<AngleDiff<T>> for Angle<T> {
    fn from(diff: AngleDiff<T>) -> (r: Angle<T>)
        ensures
            r == Angle::of_diff(diff),
            r.wf(),
    {
        Angle(turn(diff.0))
    }
}

} // verus!
