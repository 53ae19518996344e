//! Line segments, kept as the line they lie on and the stretch of it they
//! cover.
use core::ops::Neg;
use vstd::prelude::*;
use vstd::std_specs::cmp::PartialEqSpecImpl;
use crate::geometry::angle::{Angle, AngleDiff};
use crate::geometry::base::Value;
use crate::geometry::delta::Delta;
use crate::geometry::error::{CurvyError, CurvyErrorKind, CurvyResult};
use crate::geometry::intersects::Intersects;
use crate::geometry::offset::Offset;
use crate::geometry::point::Point;

verus! {

/// A line segment.
///
/// `angle` and `distance_from_origin` say which infinite line it lies on: the
/// line's direction, and how far the line passes from the origin, counted
/// positive where the origin lies to the right of the direction. `begin` and
/// `end` bound the segment: they are measured along the direction from the
/// line's point nearest the origin. Moving the segment sideways changes
/// `distance_from_origin` and nothing else.
///
/// Where `end` is below `begin` the segment has negative length and holds no
/// point; joining offset segments uses this to mark one that was used up.
#[derive(Clone, Copy, Debug)]
pub struct Line<T: Value> {
    pub angle: Angle<T>,
    pub distance_from_origin: T,
    pub begin: T,
    pub end: T,
}

/// What two line segments have in common.
#[derive(Clone, Copy, Debug)]
pub enum LineIntersection<T: Value> {
    /// The lines have no point in common that can be computed: they are
    /// parallel and apart, or so near to parallel that rounding leaves no
    /// crossing point.
    Empty,
    /// The lines cross in this point, which lies beyond one of the segments.
    OutOfBounds(Point<T>),
    /// The segments meet in this point.
    OnePoint(Point<T>),
    /// The segments lie on one line and overlap.
    Many,
    /// The segments lie on one line, apart from each other.
    ManyOutOfBounds,
}

impl<T: Value> LineIntersection<T> {
    /// Whether the two are of one kind, with the same point where the kind
    /// has one.
    pub open spec fn spec_eq(self, other: LineIntersection<T>) -> bool {
        match (self, other) {
            (LineIntersection::Empty, LineIntersection::Empty) => true,
            (LineIntersection::OutOfBounds(a), LineIntersection::OutOfBounds(b)) => a.spec_eq(b),
            (LineIntersection::OnePoint(a), LineIntersection::OnePoint(b)) => a.spec_eq(b),
            (LineIntersection::Many, LineIntersection::Many) => true,
            (LineIntersection::ManyOutOfBounds, LineIntersection::ManyOutOfBounds) => true,
            _ => false,
        }
    }

    /// The point in which the two lines cross, if it is a single one.
    pub open spec fn spec_point(self) -> Option<Point<T>> {
        match self {
            LineIntersection::OnePoint(point) => Some(point),
            LineIntersection::OutOfBounds(point) => Some(point),
            _ => None,
        }
    }

    /// The point in which the two lines cross, if it is a single one.
    pub fn point(self) -> (r: Option<Point<T>>)
        ensures
            r == self.spec_point(),
    {
        match self {
            LineIntersection::OnePoint(point) => Some(point),
            LineIntersection::OutOfBounds(point) => Some(point),
            _ => None,
        }
    }
}

impl<T: Value> PartialEqSpecImpl for LineIntersection<T> {
    open spec fn obeys_eq_spec() -> bool {
        true
    }

    open spec fn eq_spec(&self, other: &LineIntersection<T>) -> bool {
        self.spec_eq(*other)
    }
}

impl<T: Value> PartialEq for LineIntersection<T> {
    fn eq(&self, other: &LineIntersection<T>) -> (r: bool)
        ensures
            r == self.spec_eq(*other),
    {
        match (*self, *other) {
            (LineIntersection::Empty, LineIntersection::Empty) => true,
            (LineIntersection::OutOfBounds(a), LineIntersection::OutOfBounds(b)) => a == b,
            (LineIntersection::OnePoint(a), LineIntersection::OnePoint(b)) => a == b,
            (LineIntersection::Many, LineIntersection::Many) => true,
            (LineIntersection::ManyOutOfBounds, LineIntersection::ManyOutOfBounds) => true,
            _ => false,
        }
    }
}

impl<T: Value> Line<T> {
    /// Whether the segment's bounds stand in order, so that it holds a point.
    pub open spec fn is_ordered(self) -> bool {
        self.begin.rank() <= self.end.rank()
    }

    /// The segment from `start` to `stop`, two different points.
    ///
    /// The direction is that of the step from `start` to `stop`. Both points
    /// are turned back by it, into a frame in which the line runs along the
    /// first axis: there the first coordinates bound the segment, the smaller
    /// as `begin`, and the second coordinate of `start` is the distance from
    /// the origin, negated where `start` has the larger first coordinate.
    pub open spec fn spec_new(start: Point<T>, stop: Point<T>) -> Line<T> {
        let angle = Angle::of_delta(stop.spec_sub(start));
        let d1 = start.spec_sub(Point::spec_origin()).spec_rotate(angle.spec_neg());
        let d2 = stop.spec_sub(Point::spec_origin()).spec_rotate(angle.spec_neg());
        if d1.dx.rank() < d2.dx.rank() {
            Line { angle, distance_from_origin: d1.dy, begin: d1.dx, end: d2.dx }
        } else {
            Line { angle, distance_from_origin: d1.dy.negation(), begin: d2.dx, end: d1.dx }
        }
    }

    /// The segment from `start` to `stop`; an error where they are the same
    /// point.
    pub open spec fn spec_try_new(start: Point<T>, stop: Point<T>) -> CurvyResult<Line<T>> {
        if start.spec_eq(stop) {
            Err(CurvyError::same_points())
        } else {
            Ok(Self::spec_new(start, stop))
        }
    }

    /// The segment from `start` to `stop`; an error where they are the same
    /// point.
    pub fn new(start: Point<T>, stop: Point<T>) -> (r: CurvyResult<Line<T>>)
        ensures
            r == Self::spec_try_new(start, stop),
            r is Ok ==> r->Ok_0.is_ordered() && r->Ok_0.angle.wf(),
    {
        if start == stop {
            return Err(CurvyError { kind: CurvyErrorKind::SamePoints });
        }
        let line_delta = stop - start;
        let line_angle: Angle<T> = Angle::from(line_delta);
        let d1 = (start - Point::origin()).rotate(line_angle.neg());
        let d2 = (stop - Point::origin()).rotate(line_angle.neg());
        if d1.dx.less(d2.dx) {
            Ok(Line { angle: line_angle, distance_from_origin: d1.dy, begin: d1.dx, end: d2.dx })
        } else {
            Ok(
                Line {
                    angle: line_angle,
                    distance_from_origin: d1.dy.neg(),
                    begin: d2.dx,
                    end: d1.dx,
                },
            )
        }
    }

    /// The point reached from `start` by `length` along `angle`.
    pub open spec fn spec_reach(start: Point<T>, angle: Angle<T>, length: T) -> Point<T> {
        start.spec_add(Delta::spec_magnitude_angle(length, angle))
    }

    /// The segment that leads from `start` by `length` along `angle`; an
    /// error where that reaches no other point.
    pub fn from_point_angle(start: Point<T>, angle: Angle<T>, length: T) -> (r: CurvyResult<
        Line<T>,
    >)
        ensures
            r == Self::spec_from_point_angle(start, angle, length),
            r is Ok ==> r->Ok_0.is_ordered() && r->Ok_0.angle.wf(),
    {
        let stop = start + Delta::magnitude_angle(length, angle);
        Self::new(start, stop)
    }

    /// The segment that leads from `start` by `length` along `angle`; an
    /// error where that reaches no other point.
    pub open spec fn spec_from_point_angle(start: Point<T>, angle: Angle<T>, length: T)
        -> CurvyResult<Line<T>> {
        Self::spec_try_new(start, Self::spec_reach(start, angle, length))
    }

    /// The segment that covers the same ground in the opposite direction.
    ///
    /// The direction is turned by a half turn, which leaves the foot point
    /// where it is and the origin on the other side. What lay at `t` along
    /// the old direction lies at `-t` along the new one, so the negated end
    /// is the new begin and the negated begin the new end.
    pub open spec fn spec_reversed(self) -> Line<T> {
        Line {
            angle: self.angle.spec_add(AngleDiff(T::pi_value())),
            distance_from_origin: self.distance_from_origin.negation(),
            begin: self.end.negation(),
            end: self.begin.negation(),
        }
    }

    /// The segment that covers the same ground in the opposite direction.
    pub fn reversed(self) -> (r: Line<T>)
        ensures
            r == self.spec_reversed(),
            r.is_ordered() == self.is_ordered(),
    {
        proof {
            T::negation_mirrors(self.begin);
            T::negation_mirrors(self.end);
        }
        Line {
            angle: self.angle + AngleDiff(T::pi()),
            distance_from_origin: self.distance_from_origin.neg(),
            begin: self.end.neg(),
            end: self.begin.neg(),
        }
    }

    /// The point of the infinite line that is nearest the origin: its foot
    /// point, a quarter turn counterclockwise from the direction.
    pub open spec fn spec_point_nearest_origin(self) -> Point<T> {
        Point::spec_origin().spec_add(
            Delta::spec_magnitude_angle(self.distance_from_origin, self.spec_normal()),
        )
    }

    /// The point of the infinite line that is nearest the origin.
    pub fn point_nearest_origin(self) -> (r: Point<T>)
        ensures
            r == self.spec_point_nearest_origin(),
    {
        Point::origin() + Delta::magnitude_angle(
            self.distance_from_origin,
            self.angle + AngleDiff(T::half_pi()),
        )
    }

    /// The point of the infinite line at `t` along the direction from the
    /// foot point.
    pub open spec fn spec_apply(self, t: T) -> Point<T> {
        self.spec_point_nearest_origin().spec_add(Delta::spec_magnitude_angle(t, self.angle))
    }

    /// The point of the infinite line at `t` along the direction from the
    /// foot point.
    pub fn apply(self, t: T) -> (r: Point<T>)
        ensures
            r == self.spec_apply(t),
    {
        self.point_nearest_origin() + Delta::magnitude_angle(t, self.angle)
    }

    /// The point of the infinite line at `signed_distance` from the foot
    /// point.
    pub fn point_along(self, signed_distance: T) -> (r: Point<T>)
        ensures
            r == self.spec_apply(signed_distance),
    {
        self.point_nearest_origin() + Delta::magnitude_angle(signed_distance, self.angle)
    }

    /// Whether `t` lies within the segment's bounds, the bounds included.
    pub open spec fn holds(self, t: T) -> bool {
        self.begin.rank() <= t.rank() <= self.end.rank()
    }

    /// The point of the segment at `t`, where `t` lies within its bounds.
    pub fn apply_bounded(self, t: T) -> (r: Option<Point<T>>)
        ensures
            self.holds(t) ==> r == Some(self.spec_apply(t)),
            !self.holds(t) ==> r.is_none(),
    {
        if !t.less(self.begin) && !self.end.less(t) {
            Some(self.apply(t))
        } else {
            None
        }
    }

    /// How far along the direction `point` lies from the foot point.
    pub open spec fn spec_signed_distance(self, point: Point<T>) -> T {
        point.spec_sub(self.spec_point_nearest_origin()).spec_rotate(self.angle.spec_neg()).dx
    }

    /// How far along the direction `point` lies from the foot point.
    pub fn signed_distance(self, point: Point<T>) -> (r: T)
        ensures
            r == self.spec_signed_distance(point),
    {
        let delta = point - self.point_nearest_origin();
        delta.rotate(self.angle.neg()).dx
    }

    /// The length of the segment, negative where it holds no point.
    pub open spec fn spec_length(self) -> T {
        self.end.difference(self.begin)
    }

    /// The length of the segment, negative where it holds no point.
    pub fn length(self) -> (r: T)
        ensures
            r == self.spec_length(),
            r.rank() < 0 <==> !self.is_ordered(),
    {
        proof {
            T::difference_sign(self.end, self.begin);
        }
        self.end.minus(self.begin)
    }

    pub fn begin(self) -> (r: T)
        ensures
            r == self.begin,
    {
        self.begin
    }

    pub fn end(self) -> (r: T)
        ensures
            r == self.end,
    {
        self.end
    }

    /// The point in which the segment begins.
    pub open spec fn spec_start(self) -> Point<T> {
        self.spec_apply(self.begin)
    }

    /// The point in which the segment begins.
    pub fn start(self) -> (r: Point<T>)
        ensures
            r == self.spec_start(),
    {
        self.apply(self.begin)
    }

    /// The point in which the segment ends.
    pub open spec fn spec_stop(self) -> Point<T> {
        self.spec_apply(self.end)
    }

    /// The point in which the segment ends.
    pub fn stop(self) -> (r: Point<T>)
        ensures
            r == self.spec_stop(),
    {
        self.apply(self.end)
    }

    /// The segment cut to begin abreast of `point`.
    pub open spec fn spec_herefrom(self, point: Point<T>) -> Line<T> {
        Line {
            angle: self.angle,
            distance_from_origin: self.distance_from_origin,
            begin: self.spec_signed_distance(point),
            end: self.end,
        }
    }

    /// The segment cut to begin abreast of `point`: it is left with a
    /// negative length exactly where the point lies beyond its end.
    pub fn herefrom(self, point: Point<T>) -> (r: Line<T>)
        ensures
            r == self.spec_herefrom(point),
            r.spec_length().rank() < 0 <==> self.end.rank() < self.spec_signed_distance(
                point,
            ).rank(),
    {
        proof {
            T::difference_sign(self.end, self.spec_signed_distance(point));
        }
        Line {
            angle: self.angle,
            distance_from_origin: self.distance_from_origin,
            begin: self.signed_distance(point),
            end: self.end,
        }
    }

    /// The segment cut to end abreast of `point`.
    pub open spec fn spec_until(self, point: Point<T>) -> Line<T> {
        Line {
            angle: self.angle,
            distance_from_origin: self.distance_from_origin,
            begin: self.begin,
            end: self.spec_signed_distance(point),
        }
    }

    /// The segment cut to end abreast of `point`: it is left with a negative
    /// length exactly where the point lies before its begin.
    pub fn until(self, point: Point<T>) -> (r: Line<T>)
        ensures
            r == self.spec_until(point),
            r.spec_length().rank() < 0 <==> self.spec_signed_distance(point).rank()
                < self.begin.rank(),
    {
        proof {
            T::difference_sign(self.spec_signed_distance(point), self.begin);
        }
        Line {
            angle: self.angle,
            distance_from_origin: self.distance_from_origin,
            begin: self.begin,
            end: self.signed_distance(point),
        }
    }

    /// The segment moved sideways by `offset`.
    pub open spec fn spec_offset(self, offset: T) -> Line<T> {
        Line {
            angle: self.angle,
            distance_from_origin: self.distance_from_origin.sum(offset),
            begin: self.begin,
            end: self.end,
        }
    }

    /// Whether the two segments lie on parallel lines of the same direction.
    pub open spec fn is_parallel_to(self, other: Line<T>) -> bool {
        self.angle.spec_eq(other.angle)
    }

    /// The direction in which the foot point lies from the origin where the
    /// distance from the origin is positive: a quarter turn counterclockwise
    /// from the line's direction.
    pub open spec fn spec_normal(self) -> Angle<T> {
        self.angle.spec_add(AngleDiff(T::half_pi_value()))
    }

    /// What tells whether two infinite lines cross in one point: the sine of
    /// the angle between their normals, which is zero where the lines run
    /// the same way or opposite ways.
    pub open spec fn spec_determinant(self, other: Line<T>) -> T {
        let a = self.spec_normal().0;
        let b = other.spec_normal().0;
        a.cosine().product(b.sine()).difference(a.sine().product(b.cosine()))
    }

    /// Whether the two infinite lines cross in one point that can be
    /// computed: they differ in direction, and their determinant is not
    /// rounded to zero.
    pub open spec fn crosses(self, other: Line<T>) -> bool {
        !self.is_parallel_to(other) && self.spec_determinant(other).rank() != 0
    }

    /// The point in which two infinite lines cross.
    ///
    /// Each line is taken in normal form, `x cos a + y sin a = A`, by the
    /// polar coordinates of its foot point: its distance `A` from the origin
    /// and the angle `a` of its normal. The two equations are solved for the
    /// point.
    pub open spec fn spec_crossing(self, other: Line<T>) -> Point<T> {
        let big_a = self.distance_from_origin;
        let a = self.spec_normal().0;
        let big_b = other.distance_from_origin;
        let b = other.spec_normal().0;
        let denominator = self.spec_determinant(other);
        Point {
            x: big_a.product(b.sine()).difference(big_b.product(a.sine())).quotient(denominator),
            y: big_b.product(a.cosine()).difference(big_a.product(b.cosine())).quotient(
                denominator,
            ),
        }
    }

    /// The point in which two infinite lines cross, where their determinant
    /// is not zero.
    pub fn crossing(self, other: &Line<T>) -> (r: Option<Point<T>>)
        ensures
            self.spec_determinant(*other).rank() != 0 ==> r == Some(self.spec_crossing(*other)),
            self.spec_determinant(*other).rank() == 0 ==> r.is_none(),
    {
        proof {
            T::constants_in_order();
        }
        let quarter = AngleDiff(T::half_pi());
        let big_a = self.distance_from_origin;
        let a = (self.angle + quarter).0;
        let big_b = other.distance_from_origin;
        let b = (other.angle + quarter).0;
        let sin_a = a.sin();
        let sin_b = b.sin();
        let cos_a = a.cos();
        let cos_b = b.cos();
        let denominator = cos_a.times(sin_b).minus(sin_a.times(cos_b));
        if denominator.equals(T::zero()) {
            return None;
        }
        let x = big_a.times(sin_b).minus(big_b.times(sin_a)).over(denominator);
        let y = big_b.times(cos_a).minus(big_a.times(cos_b)).over(denominator);
        Some(Point { x, y })
    }

    /// What two segments on one infinite line have in common.
    pub open spec fn spec_overlap(self, other: Line<T>) -> LineIntersection<T> {
        if self.begin.rank() > other.end.rank() || other.begin.rank() > self.end.rank() {
            LineIntersection::ManyOutOfBounds
        } else if self.begin.rank() == other.end.rank() {
            LineIntersection::OnePoint(self.spec_apply(self.begin))
        } else if other.begin.rank() == self.end.rank() {
            LineIntersection::OnePoint(other.spec_apply(other.begin))
        } else {
            LineIntersection::Many
        }
    }

    /// What two segments have in common whose lines cross in `point`: the
    /// point is theirs where it lies within the bounds of both.
    pub open spec fn spec_classify(self, other: Line<T>, point: Point<T>) -> LineIntersection<T> {
        if self.holds(self.spec_signed_distance(point)) && other.holds(
            other.spec_signed_distance(point),
        ) {
            LineIntersection::OnePoint(point)
        } else {
            LineIntersection::OutOfBounds(point)
        }
    }

    /// What the two segments have in common.
    ///
    /// Segments of one direction overlap as far as they lie on one line, and
    /// have nothing in common where they do not. Segments of different
    /// directions are filed by the point in which their lines cross; where
    /// none can be computed they have nothing in common.
    pub open spec fn spec_intersect(self, other: Line<T>) -> LineIntersection<T> {
        if self.is_parallel_to(other) {
            if self.distance_from_origin.rank() == other.distance_from_origin.rank() {
                self.spec_overlap(other)
            } else {
                LineIntersection::Empty
            }
        } else if self.spec_determinant(other).rank() == 0 {
            LineIntersection::Empty
        } else {
            self.spec_classify(other, self.spec_crossing(other))
        }
    }
}

/// Two segments whose lines cross beyond the bounds of one of them have no
/// point in common: the crossing point is reported as out of bounds, and as
/// theirs only where it lies within the bounds of both.
pub proof fn law_crossing_beyond_bounds<T: Value>(a: Line<T>, b: Line<T>)
    requires
        a.crosses(b),
    ensures
        !a.holds(a.spec_signed_distance(a.spec_crossing(b))) || !b.holds(
            b.spec_signed_distance(a.spec_crossing(b)),
        ) <==> a.spec_intersect(b) == LineIntersection::OutOfBounds(a.spec_crossing(b)),
        a.holds(a.spec_signed_distance(a.spec_crossing(b))) && b.holds(
            b.spec_signed_distance(a.spec_crossing(b)),
        ) <==> a.spec_intersect(b) == LineIntersection::OnePoint(a.spec_crossing(b)),
{
}

/// The length of a segment is below, at or above zero as its end is below,
/// at or above its begin: a segment has a negative length exactly where its
/// bounds stand out of order.
pub proof fn law_length_sign<T: Value>(line: Line<T>)
    ensures
        line.spec_length().rank() < 0 <==> line.end.rank() < line.begin.rank(),
        line.spec_length().rank() == 0 <==> line.end.rank() == line.begin.rank(),
        line.spec_length().rank() >= 0 <==> line.is_ordered(),
{
    T::difference_sign(line.end, line.begin);
}

/// A segment that is cut to end abreast of a point is left with a negative
/// length exactly where the point lies before its begin; its other fields
/// stay as they are.
pub proof fn law_until_uses_up<T: Value>(line: Line<T>, point: Point<T>)
    ensures
        line.spec_until(point).end == line.spec_signed_distance(point),
        line.spec_until(point).begin == line.begin,
        line.spec_until(point).angle == line.angle,
        line.spec_until(point).distance_from_origin == line.distance_from_origin,
        line.spec_until(point).spec_length().rank() < 0 <==> line.spec_signed_distance(
            point,
        ).rank() < line.begin.rank(),
{
    T::difference_sign(line.spec_signed_distance(point), line.begin);
}

/// Reversing a segment keeps its bounds in order, or out of order, and
/// turns its distance from the origin round.
pub proof fn law_reversed_keeps_order<T: Value>(line: Line<T>)
    ensures
        line.spec_reversed().is_ordered() == line.is_ordered(),
        line.spec_reversed().distance_from_origin.rank() + line.distance_from_origin.rank() == 0,
{
    T::negation_mirrors(line.begin);
    T::negation_mirrors(line.end);
    T::negation_mirrors(line.distance_from_origin);
}

/// Moving a segment sideways leaves its direction, its bounds and its
/// length as they are.
pub proof fn law_offset_keeps_extent<T: Value>(line: Line<T>, offset: T)
    ensures
        line.spec_offset(offset).angle == line.angle,
        line.spec_offset(offset).begin == line.begin,
        line.spec_offset(offset).end == line.end,
        line.spec_offset(offset).spec_length() == line.spec_length(),
        line.spec_offset(offset).distance_from_origin == line.distance_from_origin.sum(offset),
{
}

impl<T: Value> Offset<T> for Line<T> {
    type OffsetResult = Line<T>;

    /// The segment moved sideways by `offset`: only its distance from the
    /// origin changes.
    fn offset(self, offset: T) -> (r: Line<T>)
        ensures
            r == self.spec_offset(offset),
    {
        Line {
            angle: self.angle,
            distance_from_origin: self.distance_from_origin.plus(offset),
            begin: self.begin,
            end: self.end,
        }
    }
}

impl<T: Value> Intersects<Line<T>> for Line<T> {
    type Intersection = LineIntersection<T>;

    /// What the two segments have in common.
    fn intersect(self, other: &Line<T>) -> (r: LineIntersection<T>)
        ensures
            r == self.spec_intersect(*other),
    {
        if self.angle == other.angle {
            if self.distance_from_origin.equals(other.distance_from_origin) {
                if other.end.less(self.begin) || self.end.less(other.begin) {
                    return LineIntersection::ManyOutOfBounds;
                } else if self.begin.equals(other.end) {
                    return LineIntersection::OnePoint(self.point_along(self.begin));
                } else if other.begin.equals(self.end) {
                    return LineIntersection::OnePoint(other.point_along(other.begin));
                } else {
                    return LineIntersection::Many;
                }
            } else {
                return LineIntersection::Empty;
            }
        }
        let point = match self.crossing(other) {
            Some(point) => point,
            None => {
                return LineIntersection::Empty;
            },
        };
        let self_t = self.signed_distance(point);
        if self_t.less(self.begin) || self.end.less(self_t) {
            return LineIntersection::OutOfBounds(point);
        }
        let other_t = other.signed_distance(point);
        if other_t.less(other.begin) || other.end.less(other_t) {
            return LineIntersection::OutOfBounds(point);
        }
        LineIntersection::OnePoint(point)
    }
}

} // verus!
