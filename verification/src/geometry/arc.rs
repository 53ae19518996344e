//! Circular arcs, kept by centre, radius and angles.
use vstd::prelude::*;
use crate::geometry::angle::{Angle, AngleDiff, Direction};
use crate::geometry::base::Value;
use crate::geometry::delta::Delta;
use crate::geometry::error::{CurvyError, CurvyErrorKind, CurvyResult};
use crate::geometry::intersects::Intersects;
use crate::geometry::line::Line;
use crate::geometry::offset::Offset;
use crate::geometry::point::Point;

verus! {

/// A circular arc.
///
/// `start_angle` is the direction from the centre to the point in which the
/// arc begins, `stop_diff` the signed rotation from there to the point in
/// which it ends. The two end points are computed when asked for, so that
/// moving the arc sideways changes `radius` and nothing else. A negative
/// radius stands for an arc that was moved beyond its centre.
#[derive(Clone, Copy, Debug)]
pub struct Arc<T: Value> {
    pub center: Point<T>,
    pub radius: T,
    pub start_angle: Angle<T>,
    pub stop_diff: AngleDiff<T>,
}

/// A point in which the line of a segment meets the circle of an arc, by
/// whether it lies on the segment and on the arc.
#[derive(Clone, Copy, Debug)]
pub enum ArcIntersectionPoint<T: Value> {
    /// On the segment and on the arc.
    InBounds(Point<T>),
    /// On the arc, beyond the segment.
    InArcBounds(Point<T>),
    /// On the segment, beyond the arc.
    InLineBounds(Point<T>),
    /// Beyond both.
    OutOfBounds(Point<T>),
}

/// What an arc has in common with another shape.
#[derive(Clone, Copy, Debug)]
pub enum ArcIntersection<T: Value> {
    /// The line passes the circle by.
    Empty,
    /// The line touches the circle.
    One(ArcIntersectionPoint<T>),
    /// The line cuts the circle.
    Two(ArcIntersectionPoint<T>, ArcIntersectionPoint<T>),
    /// Two arcs of one circle overlap.
    Many,
}

impl<T: Value> ArcIntersectionPoint<T> {
    /// The point, filed by the two tests that it passed.
    pub open spec fn spec_new(on_line_segment: bool, on_circular_arc: bool, point: Point<T>)
        -> ArcIntersectionPoint<T> {
        if on_line_segment && on_circular_arc {
            ArcIntersectionPoint::InBounds(point)
        } else if on_line_segment {
            ArcIntersectionPoint::InLineBounds(point)
        } else if on_circular_arc {
            ArcIntersectionPoint::InArcBounds(point)
        } else {
            ArcIntersectionPoint::OutOfBounds(point)
        }
    }

    /// The point, filed by the two tests that it passed.
    pub fn new(on_line_segment: bool, on_circular_arc: bool, point: Point<T>) -> (r:
        ArcIntersectionPoint<T>)
        ensures
            r == Self::spec_new(on_line_segment, on_circular_arc, point),
    {
        match (on_line_segment, on_circular_arc) {
            (false, false) => ArcIntersectionPoint::OutOfBounds(point),
            (false, true) => ArcIntersectionPoint::InArcBounds(point),
            (true, false) => ArcIntersectionPoint::InLineBounds(point),
            (true, true) => ArcIntersectionPoint::InBounds(point),
        }
    }

    /// The point itself.
    pub open spec fn spec_point(self) -> Point<T> {
        match self {
            ArcIntersectionPoint::InBounds(point) => point,
            ArcIntersectionPoint::InArcBounds(point) => point,
            ArcIntersectionPoint::InLineBounds(point) => point,
            ArcIntersectionPoint::OutOfBounds(point) => point,
        }
    }

    /// The point itself.
    pub fn point(self) -> (r: Point<T>)
        ensures
            r == self.spec_point(),
    {
        match self {
            ArcIntersectionPoint::InBounds(point) => point,
            ArcIntersectionPoint::InArcBounds(point) => point,
            ArcIntersectionPoint::InLineBounds(point) => point,
            ArcIntersectionPoint::OutOfBounds(point) => point,
        }
    }
}

impl<T: Value> Arc<T> {
    /// The centre of the circle through `start` and `stop` whose tangent in
    /// `start` has the direction `angle`.
    ///
    /// It is the point in which two lines cross: the one through `start`, and
    /// the one through the point halfway to `stop`, each a quarter turn from
    /// the direction it belongs to (the tangent, the step from `start` to
    /// `stop`).
    pub open spec fn spec_center(start: Point<T>, stop: Point<T>, angle: Angle<T>) -> CurvyResult<
        Point<T>,
    > {
        let quarter = AngleDiff(T::half_pi_value());
        let one = T::one_value();
        match Line::spec_from_point_angle(start, angle.spec_add(quarter), one) {
            Err(e) => Err(e),
            Ok(start_perpendicular) => match Line::spec_from_point_angle(
                start.spec_midpoint(stop),
                stop.spec_sub(start).spec_angle().spec_add(quarter),
                one,
            ) {
                Err(e) => Err(e),
                Ok(midpoint_perpendicular) => match start_perpendicular.spec_intersect(
                    midpoint_perpendicular,
                ).spec_point() {
                    Some(point) => Ok(point),
                    None => Err(CurvyError::undefinable()),
                },
            },
        }
    }

    /// The arc about `center` from `start` towards `stop`: its radius is the
    /// distance of `start` from the centre, its rotation the shortest from
    /// the direction of `start` to that of `stop`, both seen from the centre.
    pub open spec fn spec_about(
        center: Point<T>,
        start: Point<T>,
        stop: Point<T>,
        start_angle: Angle<T>,
    ) -> Arc<T> {
        Arc {
            center,
            radius: start.spec_sub(center).spec_magnitude(),
            start_angle,
            stop_diff: stop.spec_sub(center).spec_angle().spec_sub(
                start.spec_sub(center).spec_angle(),
            ),
        }
    }

    /// The arc from `start` to `stop` that leaves `start` in the direction
    /// `angle`, or in the opposite one: the arc about the centre that the
    /// tangent fixes, which begins in the direction in which `start` lies
    /// from that centre.
    pub open spec fn spec_new(start: Point<T>, stop: Point<T>, angle: Angle<T>) -> CurvyResult<
        Arc<T>,
    > {
        if start.spec_eq(stop) {
            Err(CurvyError::same_points())
        } else {
            match Self::spec_center(start, stop, angle) {
                Err(e) => Err(e),
                Ok(center) => Ok(
                    Self::spec_about(center, start, stop, start.spec_sub(center).spec_angle()),
                ),
            }
        }
    }

    /// The arc from `start` to `stop` that leaves `start` in the direction
    /// `angle`. An error where the points are the same, or where no single
    /// centre is found.
    pub fn new(start: Point<T>, stop: Point<T>, angle: Angle<T>) -> (r: CurvyResult<Arc<T>>)
        ensures
            r == Self::spec_new(start, stop, angle),
            r is Ok ==> r->Ok_0.start_angle.wf() && r->Ok_0.stop_diff.is_shortest(),
    {
        if start == stop {
            return Err(CurvyError { kind: CurvyErrorKind::SamePoints });
        }
        let one = T::one();
        let quarter = AngleDiff(T::half_pi());
        let start_perpendicular = match Line::from_point_angle(start, angle + quarter, one) {
            Ok(line) => line,
            Err(e) => {
                return Err(e);
            },
        };
        let midpoint_angle = (stop - start).angle();
        let midpoint_perpendicular = match Line::from_point_angle(
            start.midpoint(stop),
            midpoint_angle + quarter,
            one,
        ) {
            Ok(line) => line,
            Err(e) => {
                return Err(e);
            },
        };
        let center = match start_perpendicular.intersect(&midpoint_perpendicular).point() {
            Some(point) => point,
            None => {
                return Err(CurvyError { kind: CurvyErrorKind::Undefinable });
            },
        };
        let stop_delta = stop - center;
        let start_delta = start - center;
        let radius = start_delta.magnitude();
        let start_angle = start_delta.angle();
        let stop_diff = stop_delta.angle() - start_angle;
        Ok(Arc { center, radius, start_angle, stop_diff })
    }

    /// The arc about `center` from `start` to `stop`, where the two are
    /// equally far from it up to rounding.
    pub open spec fn spec_from_center(center: Point<T>, start: Point<T>, stop: Point<T>)
        -> CurvyResult<Arc<T>> {
        if start.spec_distance(center).near(stop.spec_distance(center)) {
            Ok(Self::spec_about(center, start, stop, start.spec_sub(center).spec_angle()))
        } else {
            Err(CurvyError::undefinable())
        }
    }

    /// The arc about `center` from `start` to `stop`. An error where the two
    /// points are not equally far from the centre.
    pub fn from_center(center: Point<T>, start: Point<T>, stop: Point<T>) -> (r: CurvyResult<
        Arc<T>,
    >)
        ensures
            r == Self::spec_from_center(center, start, stop),
            r is Ok ==> r->Ok_0.start_angle.wf() && r->Ok_0.stop_diff.is_shortest(),
    {
        let start_delta = start - center;
        let radius = start_delta.magnitude();
        let stop_delta = stop - center;
        if !radius.is_near(stop_delta.magnitude()) {
            return Err(CurvyError { kind: CurvyErrorKind::Undefinable });
        }
        let start_angle = start_delta.angle();
        let stop_diff = stop_delta.angle() - start_angle;
        Ok(Arc { center, radius, start_angle, stop_diff })
    }

    /// The point of the circle in the direction `angle` from the centre.
    pub open spec fn spec_apply_angle(self, angle: Angle<T>) -> Point<T> {
        self.center.spec_add(Delta::spec_magnitude_angle(self.radius, angle))
    }

    /// The point of the circle in the direction `angle` from the centre.
    pub fn apply_angle(self, angle: Angle<T>) -> (r: Point<T>)
        ensures
            r == self.spec_apply_angle(angle),
    {
        self.center + Delta::magnitude_angle(self.radius, angle)
    }

    /// The point of the circle at the arc length `t` from the circle's point
    /// of angle zero: the one in the direction of `t` by the radius radians.
    /// A circle of radius zero has its centre for its only point.
    pub open spec fn spec_apply(self, t: T) -> Point<T> {
        if self.radius.rank() == 0 {
            self.center
        } else {
            self.spec_apply_angle(Angle::of_diff(AngleDiff(t.quotient(self.radius))))
        }
    }

    /// The point of the circle at the arc length `t` from the circle's point
    /// of angle zero.
    pub fn apply(self, t: T) -> (r: Point<T>)
        ensures
            r == self.spec_apply(t),
    {
        proof {
            T::constants_in_order();
        }
        if self.radius.equals(T::zero()) {
            return self.center;
        }
        let angle = Angle::from(AngleDiff(t.over(self.radius)));
        self.center + Delta::magnitude_angle(self.radius, angle)
    }

    /// Whether the arc length `t` lies within the arc's bounds, the bounds
    /// included.
    pub open spec fn holds(self, t: T) -> bool {
        self.spec_begin().rank() <= t.rank() <= self.spec_end().rank()
    }

    /// The point of the arc at the arc length `t`, where `t` lies within the
    /// arc's bounds.
    pub fn apply_bounded(self, t: T) -> (r: Option<Point<T>>)
        ensures
            self.holds(t) ==> r == Some(self.spec_apply(t)),
            !self.holds(t) ==> r.is_none(),
    {
        if !t.less(self.begin()) && !self.end().less(t) {
            Some(self.apply(t))
        } else {
            None
        }
    }

    /// The arc length at which `point` lies, seen from the centre.
    pub open spec fn spec_signed_distance(self, point: Point<T>) -> T {
        point.spec_sub(self.center).spec_angle().0.product(self.radius)
    }

    /// The arc length at which `point` lies, seen from the centre.
    pub fn signed_distance(self, point: Point<T>) -> (r: T)
        ensures
            r == self.spec_signed_distance(point),
    {
        (point - self.center).angle().0.times(self.radius)
    }

    /// The arc length at which the arc begins.
    pub open spec fn spec_begin(self) -> T {
        self.start_angle.0.product(self.radius)
    }

    /// The arc length at which the arc begins.
    pub fn begin(self) -> (r: T)
        ensures
            r == self.spec_begin(),
    {
        self.start_angle.0.times(self.radius)
    }

    /// The arc length at which the arc ends.
    pub open spec fn spec_end(self) -> T {
        self.spec_stop_angle().0.product(self.radius)
    }

    /// The arc length at which the arc ends.
    pub fn end(self) -> (r: T)
        ensures
            r == self.spec_end(),
    {
        self.stop_angle().0.times(self.radius)
    }

    /// The direction from the centre to the point in which the arc begins.
    pub fn start_angle(self) -> (r: Angle<T>)
        ensures
            r == self.start_angle,
    {
        self.start_angle
    }

    /// The direction from the centre to the point in which the arc ends.
    pub open spec fn spec_stop_angle(self) -> Angle<T> {
        self.start_angle.spec_add(self.stop_diff)
    }

    /// The direction from the centre to the point in which the arc ends.
    pub fn stop_angle(self) -> (r: Angle<T>)
        ensures
            r == self.spec_stop_angle(),
            r.wf(),
    {
        self.start_angle + self.stop_diff
    }

    /// The signed length of the arc: that of its rotation, times the radius.
    pub open spec fn spec_length(self) -> T {
        self.stop_diff.0.product(self.radius)
    }

    /// The signed length of the arc: that of its rotation, times the radius.
    pub fn length(self) -> (r: T)
        ensures
            r == self.spec_length(),
    {
        self.stop_diff.0.times(self.radius)
    }

    /// The point in which the arc begins.
    pub open spec fn spec_start(self) -> Point<T> {
        self.spec_apply(self.spec_begin())
    }

    /// The point in which the arc begins.
    pub fn start(self) -> (r: Point<T>)
        ensures
            r == self.spec_start(),
    {
        self.apply(self.begin())
    }

    /// The point in which the arc ends.
    pub open spec fn spec_stop(self) -> Point<T> {
        self.spec_apply(self.spec_end())
    }

    /// The point in which the arc ends.
    pub fn stop(self) -> (r: Point<T>)
        ensures
            r == self.spec_stop(),
    {
        self.apply(self.end())
    }

    /// The tangent to the circle in the point that `angle` leads to from the
    /// centre, as a segment of length one that begins there.
    pub open spec fn spec_tangent(self, point: Point<T>, angle: Angle<T>) -> CurvyResult<Line<T>> {
        Line::spec_from_point_angle(
            point,
            Angle::of_diff(angle.spec_sub(Angle(T::half_pi_value()))),
            T::one_value(),
        )
    }

    /// The corner of the two straight lines that the arc rounds off: the
    /// point in which its tangents in its two end points cross.
    pub open spec fn spec_control_point(self) -> CurvyResult<Point<T>> {
        match self.spec_tangent(self.spec_start(), self.start_angle) {
            Err(e) => Err(e),
            Ok(start_tangent) => match self.spec_tangent(self.spec_stop(), self.spec_stop_angle()) {
                Err(e) => Err(e),
                Ok(stop_tangent) => match start_tangent.spec_intersect(stop_tangent).spec_point() {
                    Some(point) => Ok(point),
                    None => Err(CurvyError::undefinable()),
                },
            },
        }
    }

    /// The corner of the two straight lines that the arc rounds off. An error
    /// where a tangent cannot be drawn or the two do not cross in one point.
    pub fn control_point(self) -> (r: CurvyResult<Point<T>>)
        ensures
            r == self.spec_control_point(),
    {
        let quarter = Angle(T::half_pi());
        let one = T::one();
        let start_tangent = match Line::from_point_angle(
            self.start(),
            Angle::from(self.start_angle() - quarter),
            one,
        ) {
            Ok(line) => line,
            Err(e) => {
                return Err(e);
            },
        };
        let stop_tangent = match Line::from_point_angle(
            self.stop(),
            Angle::from(self.stop_angle() - quarter),
            one,
        ) {
            Ok(line) => line,
            Err(e) => {
                return Err(e);
            },
        };
        match start_tangent.intersect(&stop_tangent).point() {
            Some(point) => Ok(point),
            None => Err(CurvyError { kind: CurvyErrorKind::Undefinable }),
        }
    }

    /// How much of each of the two straight lines the arc takes away: the
    /// distance from its start to the corner that it rounds off.
    pub open spec fn spec_curve_size(self) -> CurvyResult<T> {
        match self.spec_control_point() {
            Err(e) => Err(e),
            Ok(corner) => Ok(self.spec_start().spec_distance(corner)),
        }
    }

    /// How much of each of the two straight lines the arc takes away. An
    /// error where the arc has no corner.
    pub fn curve_size(self) -> (r: CurvyResult<T>)
        ensures
            r == self.spec_curve_size(),
    {
        match self.control_point() {
            Err(e) => Err(e),
            Ok(corner) => Ok(self.start().distance(corner)),
        }
    }

    /// Whether the arc turns counterclockwise from its start to its stop.
    pub open spec fn spec_sweep_flag(self) -> bool {
        self.start_angle.spec_direction(self.spec_stop_angle()) == Direction::Counterclockwise
    }

    /// Whether the arc turns counterclockwise from its start to its stop.
    pub fn sweep_flag(self) -> (r: bool)
        ensures
            r == self.spec_sweep_flag(),
    {
        self.start_angle().direction(self.stop_angle()) == Direction::Counterclockwise
    }

    /// The arc moved sideways by `offset`.
    pub open spec fn spec_offset(self, offset: T) -> Arc<T> {
        Arc {
            center: self.center,
            radius: self.radius.sum(offset),
            start_angle: self.start_angle,
            stop_diff: self.stop_diff,
        }
    }

    /// The coefficients `(a, b, c)` of the equation `a t^2 + 2 b t + c = 0`
    /// that the points of `line` on the arc's circle solve, `t` being the
    /// place of a point along the line.
    ///
    /// The line is taken in normal form. With `u` the step of length one
    /// along it, `n` the one along its normal and `C` the centre, the point
    /// at `t` lies `t - C . u` along the line from the centre and
    /// `distance_from_origin - C . n` across it. It lies on the circle where
    /// the squares of the two add up to that of the radius: `a` is one, `b`
    /// is `-(C . u)`, and `c` is the square of the distance across less that
    /// of the radius, plus the square of `C . u`. The difference of the two
    /// squares is taken first: for a line that touches the circle it is
    /// zero, which leaves `c` the square that `b` has.
    pub open spec fn spec_quadratic(self, line: Line<T>) -> (T, T, T) {
        let unit = Delta::spec_magnitude_angle(T::one_value(), line.angle);
        let normal = Delta::spec_magnitude_angle(T::one_value(), line.spec_normal());
        let along = self.center.x.product(unit.dx).sum(self.center.y.product(unit.dy));
        let across = line.distance_from_origin.difference(
            self.center.x.product(normal.dx).sum(self.center.y.product(normal.dy)),
        );
        (
            T::one_value(),
            along.negation(),
            across.product(across).difference(self.radius.product(self.radius)).sum(
                along.product(along),
            ),
        )
    }

    /// The coefficients `(a, b, c)` of the equation `a t^2 + 2 b t + c = 0`
    /// that the points of `line` on the arc's circle solve.
    pub fn quadratic(self, line: &Line<T>) -> (r: (T, T, T))
        ensures
            r == self.spec_quadratic(*line),
            r.0.rank() != 0,
    {
        proof {
            T::constants_in_order();
        }
        let one = T::one();
        let unit = Delta::magnitude_angle(one, line.angle);
        let normal = Delta::magnitude_angle(one, line.angle + AngleDiff(T::half_pi()));
        let along = self.center.x.times(unit.dx).plus(self.center.y.times(unit.dy));
        let across = line.distance_from_origin.minus(
            self.center.x.times(normal.dx).plus(self.center.y.times(normal.dy)),
        );
        let c = across.times(across).minus(self.radius.times(self.radius)).plus(
            along.times(along),
        );
        (one, along.neg(), c)
    }

    /// Whether the place `t` along `line` lies on the segment: at or after
    /// its begin, and before its end.
    pub open spec fn on_segment(line: Line<T>, t: T) -> bool {
        line.begin.rank() <= t.rank() < line.end.rank()
    }

    /// Whether `point` lies in the arc's span of angles, seen from the
    /// centre.
    pub open spec fn on_arc(self, point: Point<T>) -> bool {
        point.spec_sub(self.center).spec_angle().spec_between(
            self.start_angle,
            self.spec_stop_angle(),
        )
    }

    /// The point of `line` at `t`, filed by whether it lies on the segment
    /// and on the arc.
    pub open spec fn spec_hit(self, line: Line<T>, t: T) -> ArcIntersectionPoint<T> {
        ArcIntersectionPoint::spec_new(
            Self::on_segment(line, t),
            self.on_arc(line.spec_apply(t)),
            line.spec_apply(t),
        )
    }

    /// The point of `line` at `t`, filed by whether it lies on the segment
    /// and on the arc.
    pub fn hit(self, line: &Line<T>, t: T) -> (r: ArcIntersectionPoint<T>)
        ensures
            r == self.spec_hit(*line, t),
    {
        let on_line_segment = !t.less(line.begin) && t.less(line.end);
        let point = line.point_along(t);
        let theta = (point - self.center).angle();
        let on_circular_arc = theta.between(self.start_angle(), self.stop_angle());
        ArcIntersectionPoint::new(on_line_segment, on_circular_arc, point)
    }

    /// The single point in which `line` touches the circle, at `t`: in
    /// bounds where it lies on the segment and on the arc, out of bounds
    /// otherwise.
    pub open spec fn spec_touch(self, line: Line<T>, t: T) -> ArcIntersectionPoint<T> {
        if Self::on_segment(line, t) && self.on_arc(line.spec_apply(t)) {
            ArcIntersectionPoint::InBounds(line.spec_apply(t))
        } else {
            ArcIntersectionPoint::OutOfBounds(line.spec_apply(t))
        }
    }

    /// The single point in which `line` touches the circle, at `t`.
    pub fn touch(self, line: &Line<T>, t: T) -> (r: ArcIntersectionPoint<T>)
        ensures
            r == self.spec_touch(*line, t),
    {
        let on_line_segment = !t.less(line.begin) && t.less(line.end);
        let point = line.point_along(t);
        let theta = (point - self.center).angle();
        let on_circular_arc = theta.between(self.start_angle(), self.stop_angle());
        if on_line_segment && on_circular_arc {
            ArcIntersectionPoint::InBounds(point)
        } else {
            ArcIntersectionPoint::OutOfBounds(point)
        }
    }

    /// What the arc has in common with a segment whose line meets the circle
    /// as the equation with the coefficients `a`, `b`, `c` says: by the sign
    /// of `b^2 - a c` in no point, in the one at `-b / a`, or in the two at
    /// `(-b + s) / a` and `(-b - s) / a`, `s` being the root of it.
    pub open spec fn spec_solve(self, line: Line<T>, a: T, b: T, c: T) -> ArcIntersection<T> {
        let radicand = b.product(b).difference(a.product(c));
        if radicand.rank() < 0 {
            ArcIntersection::Empty
        } else if radicand.rank() == 0 {
            ArcIntersection::One(self.spec_touch(line, b.negation().quotient(a)))
        } else {
            ArcIntersection::Two(
                self.spec_hit(line, b.negation().sum(radicand.root()).quotient(a)),
                self.spec_hit(line, b.negation().difference(radicand.root()).quotient(a)),
            )
        }
    }

    /// What the arc has in common with a segment whose line meets the circle
    /// as the equation with the coefficients `a`, `b`, `c` says, `a` not
    /// being zero.
    pub fn solve(self, line: &Line<T>, a: T, b: T, c: T) -> (r: ArcIntersection<T>)
        requires
            a.rank() != 0,
        ensures
            r == self.spec_solve(*line, a, b, c),
    {
        proof {
            T::constants_in_order();
        }
        let zero = T::zero();
        let radicand = b.times(b).minus(a.times(c));
        if radicand.less(zero) {
            return ArcIntersection::Empty;
        }
        if radicand.equals(zero) {
            return ArcIntersection::One(self.touch(line, b.neg().over(a)));
        }
        let root = radicand.sqrt();
        let solution1 = b.neg().plus(root).over(a);
        let solution2 = b.neg().minus(root).over(a);
        ArcIntersection::Two(self.hit(line, solution1), self.hit(line, solution2))
    }

    /// What the arc and the segment have in common.
    pub open spec fn spec_intersect(self, line: Line<T>) -> ArcIntersection<T> {
        let (a, b, c) = self.spec_quadratic(line);
        self.spec_solve(line, a, b, c)
    }
}

/// Moving an arc sideways adds the offset to its radius and leaves its
/// centre and its angles as they are.
pub proof fn law_offset_changes_radius<T: Value>(arc: Arc<T>, offset: T)
    ensures
        arc.spec_offset(offset).radius == arc.radius.sum(offset),
        arc.spec_offset(offset).center == arc.center,
        arc.spec_offset(offset).start_angle == arc.start_angle,
        arc.spec_offset(offset).stop_diff == arc.stop_diff,
        arc.spec_offset(offset).spec_stop_angle() == arc.spec_stop_angle(),
{
}

/// The length of an arc has the sign of its rotation where the radius is
/// positive and the other sign where it is negative, and so has the order of
/// its two bounds that of its two angles: an offset that carries the radius
/// through zero turns both round.
pub proof fn law_radius_sign_orients<T: Value>(arc: Arc<T>)
    ensures
        arc.radius.rank() >= 0 && arc.stop_diff.0.rank() >= 0 ==> arc.spec_length().rank() >= 0,
        arc.radius.rank() >= 0 && arc.stop_diff.0.rank() <= 0 ==> arc.spec_length().rank() <= 0,
        arc.radius.rank() <= 0 && arc.stop_diff.0.rank() >= 0 ==> arc.spec_length().rank() <= 0,
        arc.radius.rank() <= 0 && arc.stop_diff.0.rank() <= 0 ==> arc.spec_length().rank() >= 0,
        arc.radius.rank() >= 0 && arc.start_angle.0.rank() <= arc.spec_stop_angle().0.rank()
            ==> arc.spec_begin().rank() <= arc.spec_end().rank(),
        arc.radius.rank() >= 0 && arc.start_angle.0.rank() >= arc.spec_stop_angle().0.rank()
            ==> arc.spec_begin().rank() >= arc.spec_end().rank(),
        arc.radius.rank() <= 0 && arc.start_angle.0.rank() <= arc.spec_stop_angle().0.rank()
            ==> arc.spec_begin().rank() >= arc.spec_end().rank(),
        arc.radius.rank() <= 0 && arc.start_angle.0.rank() >= arc.spec_stop_angle().0.rank()
            ==> arc.spec_begin().rank() <= arc.spec_end().rank(),
{
    T::constants_in_order();
    T::product_of_zero(arc.radius);
    if arc.stop_diff.0.rank() >= 0 {
        T::product_keeps_order(T::zero_value(), arc.stop_diff.0, arc.radius);
    }
    if arc.stop_diff.0.rank() <= 0 {
        T::product_keeps_order(arc.stop_diff.0, T::zero_value(), arc.radius);
    }
    if arc.start_angle.0.rank() <= arc.spec_stop_angle().0.rank() {
        T::product_keeps_order(arc.start_angle.0, arc.spec_stop_angle().0, arc.radius);
    }
    if arc.start_angle.0.rank() >= arc.spec_stop_angle().0.rank() {
        T::product_keeps_order(arc.spec_stop_angle().0, arc.start_angle.0, arc.radius);
    }
}

/// An offset that carries the radius of an arc from one side of zero to the
/// other turns the arc round: the sign of its length and the order of its
/// two bounds are those of the other side.
pub proof fn law_offset_beyond_center_inverts<T: Value>(arc: Arc<T>, offset: T)
    requires
        arc.radius.rank() > 0,
        arc.radius.sum(offset).rank() < 0,
    ensures
        arc.stop_diff.0.rank() >= 0 ==> arc.spec_length().rank() >= 0 && arc.spec_offset(
            offset,
        ).spec_length().rank() <= 0,
        arc.stop_diff.0.rank() <= 0 ==> arc.spec_length().rank() <= 0 && arc.spec_offset(
            offset,
        ).spec_length().rank() >= 0,
        arc.start_angle.0.rank() <= arc.spec_stop_angle().0.rank() ==> arc.spec_begin().rank()
            <= arc.spec_end().rank() && arc.spec_offset(offset).spec_begin().rank()
            >= arc.spec_offset(offset).spec_end().rank(),
        arc.start_angle.0.rank() >= arc.spec_stop_angle().0.rank() ==> arc.spec_begin().rank()
            >= arc.spec_end().rank() && arc.spec_offset(offset).spec_begin().rank()
            <= arc.spec_offset(offset).spec_end().rank(),
{
    law_radius_sign_orients(arc);
    law_radius_sign_orients(arc.spec_offset(offset));
}

impl<T: Value> Offset<T> for Arc<T> {
    type OffsetResult = Arc<T>;

    /// The arc moved sideways by `offset`: only its radius changes.
    fn offset(self, offset: T) -> (r: Arc<T>)
        ensures
            r == self.spec_offset(offset),
    {
        Arc {
            center: self.center,
            radius: self.radius.plus(offset),
            start_angle: self.start_angle,
            stop_diff: self.stop_diff,
        }
    }
}

impl<T: Value> Intersects<Line<T>> for Arc<T> {
    type Intersection = ArcIntersection<T>;

    /// What the arc and the segment have in common.
    fn intersect(self, line: &Line<T>) -> (r: ArcIntersection<T>)
        ensures
            r == self.spec_intersect(*line),
    {
        let (a, b, c) = self.quadratic(line);
        self.solve(line, a, b, c)
    }
}

impl<T: Value> Intersects<Arc<T>> for Line<T> {
    type Intersection = ArcIntersection<T>;

    /// What the segment and the arc have in common.
    fn intersect(self, arc: &Arc<T>) -> (r: ArcIntersection<T>)
        ensures
            r == arc.spec_intersect(self),
    {
        arc.intersect(&self)
    }
}

impl<T: Value> Intersects<Arc<T>> for Arc<T> {
    type Intersection = CurvyResult<ArcIntersection<T>>;

    /// Two arcs cannot be intersected yet: always the error that says so.
    fn intersect(self, arc: &Arc<T>) -> (r: CurvyResult<ArcIntersection<T>>)
        ensures
            r == Err::<ArcIntersection<T>, CurvyError>(CurvyError::unsupported()),
    {
        Err(CurvyError { kind: CurvyErrorKind::Unsupported })
    }
}

} // verus!
