use std::f64::consts::PI;

use approx::AbsDiffEq;
use curvy::geometry::angle::turn;
use curvy::geometry::arc::{Arc, ArcIntersection, ArcIntersectionPoint};
use curvy::geometry::base::smaller;
use curvy::geometry::error::CurvyErrorKind;
use curvy::geometry::line::{Line, LineIntersection};
use curvy::geometry::{Angle, AngleDiff, Angular, Delta, Direction, Intersects, Offset, Point, Value};
use decorum::Finite;
use num_traits::{One, Zero};
use decorum::Real;

#[derive(Clone, Copy, Debug, PartialEq)]
struct F(Finite<f64>);

fn f(x: f64) -> F {
    F(Finite::from_inner(x))
}

fn raw(x: F) -> f64 {
    x.0.into_inner()
}

impl Value for F {
    fn rank(self) -> i64 {
        let bits = raw(self).to_bits();
        let magnitude = (bits & 0x7fff_ffff_ffff_ffff) as i64;
        if bits >> 63 == 0 {
            magnitude
        } else {
            -magnitude
        }
    }
    fn sum(self, rhs: Self) -> Self {
        self.plus(rhs)
    }
    fn difference(self, rhs: Self) -> Self {
        self.minus(rhs)
    }
    fn product(self, rhs: Self) -> Self {
        self.times(rhs)
    }
    fn quotient(self, rhs: Self) -> Self {
        self.over(rhs)
    }
    fn remainder(self, rhs: Self) -> Self {
        self.modulo(rhs)
    }
    fn negation(self) -> Self {
        self.neg()
    }
    fn root(self) -> Self {
        self.sqrt()
    }
    fn sine(self) -> Self {
        self.sin()
    }
    fn cosine(self) -> Self {
        self.cos()
    }
    fn arctangent(self, x: Self) -> Self {
        self.atan2(x)
    }
    fn zero_value() -> Self {
        Self::zero()
    }
    fn one_value() -> Self {
        Self::one()
    }
    fn two_value() -> Self {
        Self::two()
    }
    fn half_pi_value() -> Self {
        Self::half_pi()
    }
    fn pi_value() -> Self {
        Self::pi()
    }
    fn two_pi_value() -> Self {
        Self::two_pi()
    }
    fn near(self, rhs: Self) -> bool {
        self.is_near(rhs)
    }
    fn constants_in_order() {}
    fn negation_mirrors(_x: Self) {}
    fn product_keeps_order(_a: Self, _b: Self, _c: Self) {}
    fn product_of_zero(_c: Self) {}
    fn difference_sign(_a: Self, _b: Self) {}
    fn sum_of_non_negatives(_a: Self, _b: Self) {}
    fn zero() -> Self {
        F(Finite::zero())
    }
    fn one() -> Self {
        F(Finite::one())
    }
    fn two() -> Self {
        f(2.0)
    }
    fn half_pi() -> Self {
        F(Finite::FRAC_PI_2)
    }
    fn pi() -> Self {
        F(Finite::PI)
    }
    fn two_pi() -> Self {
        f(2.0 * PI)
    }
    fn plus(self, rhs: Self) -> Self {
        F(self.0 + rhs.0)
    }
    fn minus(self, rhs: Self) -> Self {
        F(self.0 - rhs.0)
    }
    fn times(self, rhs: Self) -> Self {
        F(self.0 * rhs.0)
    }
    fn over(self, rhs: Self) -> Self {
        F(self.0 / rhs.0)
    }
    fn modulo(self, rhs: Self) -> Self {
        F(self.0 % rhs.0)
    }
    fn neg(self) -> Self {
        F(-self.0)
    }
    fn sqrt(self) -> Self {
        F(self.0.sqrt())
    }
    fn sin(self) -> Self {
        f(libm::sin(raw(self)))
    }
    fn cos(self) -> Self {
        f(libm::cos(raw(self)))
    }
    fn atan2(self, x: Self) -> Self {
        f(libm::atan2(raw(self), raw(x)))
    }
    fn less(self, rhs: Self) -> bool {
        self.0 < rhs.0
    }
    fn equals(self, rhs: Self) -> bool {
        self.0 == rhs.0
    }
    fn is_near(self, rhs: Self) -> bool {
        raw(self).abs_diff_eq(&raw(rhs), f64::default_epsilon())
    }
}

fn close(a: f64, b: f64) -> bool {
    a.abs_diff_eq(&b, 1e-10)
}

fn point(x: f64, y: f64) -> Point<F> {
    Point::new(f(x), f(y))
}

fn point_close(p: Point<F>, x: f64, y: f64) -> bool {
    close(raw(p.x), x) && close(raw(p.y), y)
}

fn angle(theta: f64) -> Angle<F> {
    assert!(0.0 <= theta && theta < 2.0 * PI);
    Angle::new(f(theta))
}

#[test]
fn arc_new_clockwise() {
    let start_point = point(1.0, 1.0);
    let stop_point = point(5.0, 3.0);
    let angle = angle(PI / 4.0);
    let arc = Arc::new(start_point, stop_point, angle).unwrap();
    assert!(point_close(start_point.midpoint(stop_point), 3.0, 2.0));
    assert!(point_close(arc.center, 6.0, -4.0));
    assert!(close(raw(arc.radius), 50.0_f64.sqrt()));
    let start_angle = raw(angle.radians()) + PI / 2.0;
    assert!(close(raw(arc.start_angle().radians()), start_angle));
    let stop_angle = 7.0_f64.atan2(-1.0);
    assert!(close(raw(arc.stop_angle().radians()), stop_angle));
    assert!(point_close(arc.start(), 1.0, 1.0));
    assert!(point_close(arc.stop(), 5.0, 3.0));
}

#[test]
fn arc_length() {
    let start_point = point(1.0, 1.0);
    let end_point = point(-1.0, 1.0);
    let angle = angle(3.0 * PI / 4.0);
    let arc = Arc::new(start_point, end_point, angle).unwrap();
    assert!(close(raw(arc.length()), 2.0_f64.sqrt() * PI / 2.0));
}

#[test]
fn arc_negative_offset_length() {
    let start_point = point(1.0, 1.0);
    let end_point = point(-1.0, 1.0);
    let angle = angle(3.0 * PI / 4.0);
    let arc = Arc::new(start_point, end_point, angle).unwrap();
    assert!(close(raw(arc.radius), 2.0_f64.sqrt()));
    assert!(arc.begin().less(arc.end()));
    let arc = arc.offset(f(-2.0 * 2.0_f64.sqrt()));
    assert!(close(raw(arc.radius), -2.0_f64.sqrt()));
    assert!(arc.end().less(arc.begin()));
    assert!(close(raw(arc.length()), -2.0_f64.sqrt() * PI / 2.0));
}

#[test]
fn line_definition() {
    let start_point = point(2.0, 4.0);
    let end_point = point(4.0, -2.0);
    let line = Line::new(start_point, end_point).unwrap();

    let angle = (-3.0_f64.atan2(1.0)).rem_euclid(2.0 * PI);
    assert_eq!(line.angle, Angle::new(f(angle)));
    assert!(point_close(line.point_nearest_origin(), 3.0, 1.0));
    assert!(close(raw(line.distance_from_origin), 10.0_f64.sqrt()));
}

#[test]
fn line_intersection() {
    let line1 = Line::new(point(2.0, 4.0), point(4.0, 0.0)).unwrap();
    let line2 = Line::new(point(1.0, 1.0), point(2.0, 0.0)).unwrap();

    match line1.intersect(&line2) {
        LineIntersection::OutOfBounds(point) => {
            assert!(point_close(point, 6.0, -4.0))
        }
        _ => unreachable!(),
    }
}

fn samples() -> Vec<f64> {
    vec![-1.0e300, -7.5, -PI, -1.0, -1.0e-300, -0.0, 0.0, 5.0e-324, 0.5, 1.0, 2.0, PI, 6.0, 1.0e300]
}

fn angles() -> Vec<f64> {
    vec![0.0, 1.0e-17, 0.1, 0.5, 1.0, PI / 2.0, 2.0, 3.0, PI, 3.5, 4.0, 3.0 * PI / 2.0, 5.0, 6.0, 6.283185307179585]
}

#[test]
fn rank_orders_as_the_scalars_do() {
    for a in samples() {
        for b in samples() {
            assert_eq!(f(a).less(f(b)), f(a).rank() < f(b).rank());
            assert_eq!(f(a).equals(f(b)), f(a).rank() == f(b).rank());
            assert_eq!(a < b, f(a).less(f(b)));
        }
    }
    assert_eq!(F::zero().rank(), 0);
    assert_eq!(f(-0.0).rank(), 0);
}

#[test]
fn constants_stand_in_order() {
    assert!(0 < F::one().rank() && F::one().rank() < F::two().rank());
    assert!(0 < F::half_pi().rank() && F::half_pi().rank() < F::pi().rank());
    assert!(F::pi().rank() < F::two_pi().rank());
    assert_eq!(raw(F::two_pi()), 2.0 * PI);
    assert_eq!(raw(F::half_pi()), PI / 2.0);
}

#[test]
fn negation_mirrors_the_rank() {
    for a in samples() {
        assert_eq!(f(a).neg().rank() + f(a).rank(), 0);
    }
}

#[test]
fn product_keeps_the_order() {
    let values = vec![-7.5, -1.0, -1.0e-300, 0.0, 5.0e-324, 0.5, 1.0, PI, 1.0e100];
    for &a in &values {
        for &b in &values {
            if a > b {
                continue;
            }
            for &c in &values {
                let low = f(a).times(f(c)).rank();
                let high = f(b).times(f(c)).rank();
                if c >= 0.0 {
                    assert!(low <= high);
                }
                if c <= 0.0 {
                    assert!(low >= high);
                }
            }
        }
        assert_eq!(F::zero().times(f(a)).rank(), 0);
    }
}

#[test]
fn difference_has_the_sign_of_the_comparison() {
    let values = vec![-1.0e300, -7.5, -1.0, -1.0e-300, -5.0e-324, -0.0, 0.0, 5.0e-324, 1.0e-300, 0.5, 1.0,
        1.0000000000000002, PI, 1.0e300];
    for &a in &values {
        for &b in &values {
            if (a - b).is_infinite() {
                continue;
            }
            let difference = f(a).minus(f(b)).rank();
            assert_eq!(difference < 0, f(a).rank() < f(b).rank());
            assert_eq!(difference == 0, f(a).rank() == f(b).rank());
        }
    }
}

#[test]
fn sum_of_scalars_that_are_not_negative_is_not_negative() {
    let values = vec![-0.0, 0.0, 5.0e-324, 1.0e-300, 0.5, 1.0, PI, 1.0e300];
    for &a in &values {
        for &b in &values {
            assert!(f(a).plus(f(b)).rank() >= 0);
        }
        if (a * a).is_finite() {
            assert!(f(a).times(f(a)).rank() >= 0);
            assert!(f(-a).times(f(-a)).rank() >= 0);
        }
    }
}

#[test]
fn smaller_takes_the_first_of_equals() {
    assert_eq!(raw(smaller(f(1.0), f(2.0))), 1.0);
    assert_eq!(raw(smaller(f(3.0), f(2.0))), 2.0);
    assert!(raw(smaller(f(0.0), f(-0.0))).is_sign_positive());
    assert!(raw(smaller(f(-0.0), f(0.0))).is_sign_negative());
}

#[test]
fn turn_brings_radians_into_one_turn() {
    assert!(close(raw(turn(f(7.0))), 7.0 - 2.0 * PI));
    assert!(close(raw(turn(f(-1.0))), 2.0 * PI - 1.0));
    assert_eq!(raw(turn(f(2.0 * PI))), 0.0);
    assert_eq!(raw(turn(f(0.0))), 0.0);
    assert_eq!(raw(turn(f(1.25))), 1.25);
    // Raising this remainder by a full turn rounds to the full turn itself.
    assert_eq!(raw(turn(f(-1.0e-20))), 0.0);
    for x in samples() {
        if x.abs() > 1.0e200 {
            continue;
        }
        let r = raw(turn(f(x)));
        assert!(0.0 <= r && r < 2.0 * PI);
    }
}

#[test]
fn angle_checked_takes_one_turn_only() {
    assert!(Angle::checked(f(1.0)).is_some());
    assert_eq!(raw(Angle::checked(f(1.0)).unwrap().radians()), 1.0);
    assert!(Angle::checked(f(0.0)).is_some());
    assert!(Angle::checked(f(-0.1)).is_none());
    assert!(Angle::checked(f(2.0 * PI)).is_none());
    assert!(Angle::checked(f(7.0)).is_none());
}

#[test]
fn angle_difference_is_the_shortest_rotation() {
    assert!(close(raw((angle(0.5) - angle(1.0)).radians()), -0.5));
    assert!(close(raw((angle(1.0) - angle(0.5)).radians()), 0.5));
    assert!(close(raw((angle(0.1) - angle(6.2)).radians()), 0.1 - 6.2 + 2.0 * PI));
    assert!(close(raw((angle(6.2) - angle(0.1)).radians()), 6.2 - 0.1 - 2.0 * PI));
    assert_eq!(raw((angle(PI) - angle(0.0)).radians()), PI);
    assert_eq!(raw((angle(0.0) - angle(PI)).radians()), PI);
    assert_eq!(raw((angle(2.0) - angle(2.0)).radians()), 0.0);
    for a in angles() {
        for b in angles() {
            let d = raw((angle(a) - angle(b)).radians());
            assert!(-PI < d && d <= PI);
        }
    }
}

#[test]
fn angle_plus_difference_wraps_round() {
    assert!(close(raw((angle(6.0) + AngleDiff(f(1.0))).radians()), 7.0 - 2.0 * PI));
    assert!(close(raw((angle(0.5) + AngleDiff(f(-1.0))).radians()), 2.0 * PI - 0.5));
    assert!(close(raw((angle(1.0) + AngleDiff(f(0.5))).radians()), 1.5));
    for a in angles() {
        for d in [-3.0, -1.0, -1.0e-20, 0.0, 0.25, 3.0, 6.0] {
            let r = raw((angle(a) + AngleDiff(f(d))).radians());
            assert!(0.0 <= r && r < 2.0 * PI);
        }
    }
}

#[test]
fn moving_an_angle_and_coming_back_gives_the_rotation() {
    for a in [0.0, 0.5, 2.0, 4.0, 6.0] {
        for d in [-3.0, -1.0, 0.0, 0.25, 1.5, 3.0] {
            let moved = angle(a) + AngleDiff(f(d));
            assert!(close(raw((moved - angle(a)).radians()), d));
        }
    }
}

#[test]
fn direction_of_the_shortest_rotation() {
    assert_eq!(angle(0.0).direction(angle(PI / 2.0)), Direction::Counterclockwise);
    assert_eq!(angle(PI / 2.0).direction(angle(0.0)), Direction::Clockwise);
    assert_eq!(angle(0.1).direction(angle(6.0)), Direction::Clockwise);
    assert_eq!(angle(6.0).direction(angle(0.1)), Direction::Counterclockwise);
    assert_eq!(angle(0.0).direction(angle(PI)), Direction::Neither);
    assert_eq!(angle(PI).direction(angle(0.0)), Direction::Neither);
    assert_eq!(angle(PI / 2.0).direction(angle(3.0 * PI / 2.0)), Direction::Neither);
    assert_eq!(angle(1.0).direction(angle(1.0)), Direction::Clockwise);
}

#[test]
fn direction_is_neither_exactly_for_a_half_turn() {
    for a in angles() {
        for b in angles() {
            let size = raw((angle(a) - angle(b)).magnitude());
            assert_eq!(angle(a).direction(angle(b)) == Direction::Neither, size == PI);
        }
    }
}

#[test]
fn directions_there_and_back_are_opposite() {
    for a in angles() {
        for b in angles() {
            let there = angle(a).direction(angle(b));
            let back = angle(b).direction(angle(a));
            if a != b && raw((angle(a) - angle(b)).radians()) != 0.0 {
                assert_eq!(back, there.opposite());
            }
        }
    }
    assert_eq!(Direction::Neither.opposite(), Direction::Neither);
    assert_eq!(Direction::Clockwise.opposite(), Direction::Counterclockwise);
    assert_eq!(Direction::Counterclockwise.opposite(), Direction::Clockwise);
    // Two angles so near that their difference is rounded to zero.
    assert_eq!(angle(1.0e-17).direction(angle(0.0)), Direction::Clockwise);
    assert_eq!(angle(0.0).direction(angle(1.0e-17)), Direction::Clockwise);
    assert_eq!(raw((angle(1.0e-300) - angle(0.0)).radians()), 0.0);
    assert_eq!(angle(1.0e-300).direction(angle(0.0)), Direction::Clockwise);
    assert_eq!(angle(0.0).direction(angle(1.0e-300)), Direction::Clockwise);
}

#[test]
fn between_goes_by_the_sense_of_rotation() {
    assert!(angle(PI / 4.0).between(angle(0.0), angle(PI / 2.0)));
    assert!(!angle(3.0 * PI / 2.0).between(angle(0.0), angle(PI / 2.0)));
    assert!(angle(0.2).between(angle(6.0), angle(0.5)));
    assert!(!angle(5.5).between(angle(6.0), angle(0.5)));
}

#[test]
fn angle_mirror_scale_and_equality() {
    assert!(close(raw((-angle(1.0)).radians()), 2.0 * PI - 1.0));
    assert_eq!(raw((-angle(0.0)).radians()), 0.0);
    assert!(close(raw((angle(3.0) * f(3.0)).radians()), 9.0 - 2.0 * PI));
    assert!(angle(1.0) == angle(1.0));
    assert!(angle(1.0) != angle(1.5));
    assert!(Angle(f(1.0 + 2.0 * PI)) == Angle(f((1.0 + 2.0 * PI) % (2.0 * PI))));
}

#[test]
fn angle_conversions() {
    assert!(close(raw(Angle::from(Delta::new(f(0.0), f(-1.0))).radians()), 3.0 * PI / 2.0));
    assert_eq!(raw(Angle::from(Delta::new(f(1.0), f(0.0))).radians()), 0.0);
    assert_eq!(raw(Angle::from(Delta::new(f(-1.0), f(0.0))).radians()), PI);
    assert!(close(raw(Angle::from(AngleDiff(f(-1.0))).radians()), 2.0 * PI - 1.0));
    assert_eq!(raw(Angle::from(AngleDiff(f(1.0))).radians()), 1.0);
    assert_eq!(raw(AngleDiff::from(angle(2.5)).radians()), 2.5);
}

#[test]
fn angle_diff_arithmetic() {
    assert_eq!(raw((AngleDiff(f(1.0)) + AngleDiff(f(-0.25))).radians()), 0.75);
    assert_eq!(raw((-AngleDiff(f(1.0))).radians()), -1.0);
    assert_eq!(raw(AngleDiff(f(-1.5)).magnitude()), 1.5);
    assert_eq!(raw(AngleDiff(f(1.5)).magnitude()), 1.5);
    assert_eq!(raw(AngleDiff(f(1.5)).reversed().radians()), -1.5);
    assert_eq!(raw(AngleDiff(F::pi()).reversed().radians()), PI);
}

#[test]
fn delta_polar_form_and_rotation() {
    assert_eq!(raw(Delta::new(f(3.0), f(4.0)).magnitude()), 5.0);
    let up = Delta::magnitude_angle(f(2.0), angle(PI / 2.0));
    assert!(close(raw(up.dx), 0.0) && close(raw(up.dy), 2.0));
    let turned = Delta::new(f(1.0), f(0.0)).rotate(angle(PI / 2.0));
    assert!(close(raw(turned.dx), 0.0) && close(raw(turned.dy), 1.0));
    assert!(close(raw(Delta::new(f(0.0), f(2.0)).angle().radians()), PI / 2.0));
    assert!(close(raw(Delta::new(f(0.0), f(-2.0)).angle().radians()), 3.0 * PI / 2.0));
    assert!(close(raw(Delta::new(f(0.0), f(2.0)).arc_length()), PI));
}

#[test]
fn delta_componentwise_arithmetic() {
    let a = Delta::new(f(3.0), f(4.0));
    let b = Delta::new(f(1.0), f(-2.0));
    assert!(a + b == Delta::new(f(4.0), f(2.0)));
    assert!(a - b == Delta::new(f(2.0), f(6.0)));
    assert!(-a == Delta::new(f(-3.0), f(-4.0)));
    assert!(a * f(2.0) == Delta::new(f(6.0), f(8.0)));
    assert!(a / f(2.0) == Delta::new(f(1.5), f(2.0)));
    assert!(a != b);
}

#[test]
fn point_algebra() {
    assert!(Point::<F>::origin() == point(0.0, 0.0));
    assert!(point(1.0, 1.0).midpoint(point(5.0, 3.0)) == point(3.0, 2.0));
    assert_eq!(raw(point(0.0, 0.0).distance(point(3.0, 4.0))), 5.0);
    assert!(point_close(point(2.0, 1.0).rotate_about(point(1.0, 1.0), angle(PI / 2.0)), 1.0, 2.0));
    assert!(point(1.0, 2.0) + Delta::new(f(0.5), f(-2.0)) == point(1.5, 0.0));
    assert!(point(1.0, 2.0) - point(0.5, 4.0) == Delta::new(f(0.5), f(-2.0)));
    assert!(point(1.0, 2.0) != point(1.0, 2.5));
    assert!(point(0.0, 1.0) == point(-0.0, 1.0));
}

#[test]
fn line_of_one_point_is_refused() {
    let error = Line::new(point(1.0, 2.0), point(1.0, 2.0)).unwrap_err();
    assert_eq!(error.kind, CurvyErrorKind::SamePoints);
    assert_eq!(error.message(), "Start, stop points are the same");
    let error = Line::from_point_angle(point(1.0, 2.0), angle(1.0), f(0.0)).unwrap_err();
    assert_eq!(error.kind, CurvyErrorKind::SamePoints);
}

#[test]
fn line_gives_back_its_two_points() {
    let pairs = [
        ((2.0, 4.0), (4.0, -2.0)),
        ((0.0, 0.0), (10.0, 0.0)),
        ((-3.0, 7.5), (-3.0, -1.0)),
        ((1.0, 1.0), (-5.0, -2.0)),
        ((100.0, -40.0), (100.5, -40.25)),
    ];
    for ((x1, y1), (x2, y2)) in pairs {
        let line = Line::new(point(x1, y1), point(x2, y2)).unwrap();
        assert!(point_close(line.start(), x1, y1));
        assert!(point_close(line.stop(), x2, y2));
        assert!(!line.end().less(line.begin()));
        let length = ((x2 - x1) * (x2 - x1) + (y2 - y1) * (y2 - y1)).sqrt();
        assert!(close(raw(line.length()), length));
    }
}

#[test]
fn line_from_point_angle_reaches_along_the_angle() {
    let line = Line::from_point_angle(point(1.0, 1.0), angle(PI / 2.0), f(2.0)).unwrap();
    assert!(point_close(line.start(), 1.0, 1.0));
    assert!(point_close(line.stop(), 1.0, 3.0));
    assert!(close(raw(line.angle.radians()), PI / 2.0));
}

#[test]
fn line_reversed_covers_the_same_ground() {
    let line = Line::new(point(0.0, 1.0), point(10.0, 1.0)).unwrap();
    let back = line.reversed();
    assert!(close(raw(back.angle.radians()), PI));
    assert_eq!(raw(back.distance_from_origin), -raw(line.distance_from_origin));
    assert_eq!(raw(back.begin()), -raw(line.end()));
    assert_eq!(raw(back.end()), -raw(line.begin()));
    assert!(point_close(back.point_nearest_origin(), 0.0, 1.0));
    assert!(point_close(back.start(), 10.0, 1.0));
    assert!(point_close(back.stop(), 0.0, 1.0));
    assert_eq!(raw(back.length()), raw(line.length()));
    let slanted = Line::new(point(2.0, 4.0), point(4.0, -2.0)).unwrap();
    let back = slanted.reversed();
    assert!(point_close(back.start(), 4.0, -2.0));
    assert!(point_close(back.stop(), 2.0, 4.0));
    assert!(point_close(back.point_nearest_origin(), 3.0, 1.0));
    assert!(raw(back.begin()) <= raw(back.end()));
    let again = back.reversed();
    assert!(point_close(again.start(), 2.0, 4.0));
    assert!(point_close(again.stop(), 4.0, -2.0));
}

#[test]
fn line_offset_changes_the_distance_only() {
    let line = Line::new(point(0.0, 1.0), point(10.0, 1.0)).unwrap();
    assert!(close(raw(line.distance_from_origin), 1.0));
    let moved = line.offset(f(1.5));
    assert_eq!(raw(moved.distance_from_origin), raw(line.distance_from_origin) + 1.5);
    assert!(moved.angle == line.angle);
    assert_eq!(raw(moved.begin()), raw(line.begin()));
    assert_eq!(raw(moved.end()), raw(line.end()));
    assert_eq!(raw(moved.length()), raw(line.length()));
    // To the left of the direction for a positive offset, to the right for a negative one.
    assert!(point_close(moved.start(), 0.0, 2.5));
    assert!(point_close(moved.stop(), 10.0, 2.5));
    assert!(point_close(line.offset(f(-3.0)).start(), 0.0, -2.0));
}

#[test]
fn line_points_along_and_bounds() {
    let line = Line::new(point(0.0, 1.0), point(10.0, 1.0)).unwrap();
    assert!(point_close(line.apply(f(4.0)), 4.0, 1.0));
    assert!(point_close(line.point_along(f(-2.0)), -2.0, 1.0));
    assert!(point_close(line.apply_bounded(f(4.0)).unwrap(), 4.0, 1.0));
    assert!(line.apply_bounded(line.begin()).is_some());
    assert!(line.apply_bounded(line.end()).is_some());
    assert!(line.apply_bounded(f(-0.5)).is_none());
    assert!(line.apply_bounded(f(10.5)).is_none());
    assert!(close(raw(line.signed_distance(point(7.0, 1.0))), 7.0));
    assert!(close(raw(line.signed_distance(point(7.0, 5.0))), 7.0));
}

#[test]
fn line_cut_at_a_point() {
    let line = Line::new(point(0.0, 1.0), point(10.0, 1.0)).unwrap();
    let tail = line.herefrom(point(4.0, 1.0));
    assert!(close(raw(tail.begin()), 4.0));
    assert_eq!(raw(tail.end()), raw(line.end()));
    assert!(close(raw(tail.length()), 6.0));
    let head = line.until(point(4.0, 1.0));
    assert_eq!(raw(head.begin()), raw(line.begin()));
    assert!(close(raw(head.end()), 4.0));
    let used_up = line.until(point(-3.0, 1.0));
    assert!(raw(used_up.length()) < 0.0);
    assert!(used_up.apply_bounded(f(-1.0)).is_none());
    // The length is negative exactly where the point lies before the begin.
    for x in [-3.0, -1.0e-9, 0.0, 1.0e-9, 4.0, 10.0, 12.0] {
        let cut = line.until(point(x, 1.0));
        let before = line.signed_distance(point(x, 1.0)).less(line.begin());
        assert_eq!(raw(cut.length()) < 0.0, before);
        assert_eq!(raw(cut.end()), raw(line.signed_distance(point(x, 1.0))));
        assert_eq!(raw(cut.begin()), raw(line.begin()));
        assert!(cut.angle == line.angle);
        assert_eq!(raw(cut.distance_from_origin), raw(line.distance_from_origin));
        let rest = line.herefrom(point(x, 1.0));
        let beyond = line.end().less(line.signed_distance(point(x, 1.0)));
        assert_eq!(raw(rest.length()) < 0.0, beyond);
    }
}

#[test]
fn lines_that_cross_within_both_meet_in_one_point() {
    let a = Line::new(point(0.0, 0.0), point(4.0, 4.0)).unwrap();
    let b = Line::new(point(0.0, 4.0), point(4.0, 0.0)).unwrap();
    match a.intersect(&b) {
        LineIntersection::OnePoint(p) => assert!(point_close(p, 2.0, 2.0)),
        _ => unreachable!(),
    }
    assert!(point_close(a.intersect(&b).point().unwrap(), 2.0, 2.0));
}

#[test]
fn lines_that_cross_beyond_a_segment_are_out_of_bounds() {
    let a = Line::new(point(0.0, 1.0), point(1.0, 2.0)).unwrap();
    let b = Line::new(point(0.0, 5.0), point(8.0, 5.0)).unwrap();
    // The crossing point lies on b, beyond a.
    match a.intersect(&b) {
        LineIntersection::OutOfBounds(p) => assert!(point_close(p, 4.0, 5.0)),
        _ => unreachable!(),
    }
    // And the other way round.
    match b.intersect(&a) {
        LineIntersection::OutOfBounds(p) => assert!(point_close(p, 4.0, 5.0)),
        _ => unreachable!(),
    }
    assert!(point_close(a.crossing(&b).unwrap(), 4.0, 5.0));
}

#[test]
fn parallel_lines_apart_have_nothing_in_common() {
    let a = Line::new(point(0.0, 1.0), point(10.0, 1.0)).unwrap();
    let b = Line::new(point(0.0, 2.0), point(10.0, 2.0)).unwrap();
    assert!(matches!(a.intersect(&b), LineIntersection::Empty));
    assert!(a.intersect(&b).point().is_none());
    assert!(a.crossing(&b).is_none());
    assert!(a.intersect(&b) == LineIntersection::Empty);
    assert!(a.intersect(&b) != LineIntersection::Many);
}

#[test]
fn lines_too_near_in_direction_have_no_crossing_point() {
    // The two directions differ, but by less than the normals can tell.
    let next = f64::from_bits(0.1_f64.to_bits() + 1);
    assert_eq!(0.1 + PI / 2.0, next + PI / 2.0);
    let a = Line { angle: angle(0.1), distance_from_origin: f(1.0), begin: f(0.0), end: f(1.0) };
    let b = Line { angle: angle(next), distance_from_origin: f(2.0), begin: f(0.0), end: f(1.0) };
    assert!(a.angle != b.angle);
    assert!(a.crossing(&b).is_none());
    assert!(matches!(a.intersect(&b), LineIntersection::Empty));
}

#[test]
fn arc_of_radius_zero_is_its_centre() {
    let arc = quarter_arc().offset(f(-1.0));
    assert_eq!(raw(arc.radius), 0.0);
    assert!(arc.apply(f(1.0)) == point(0.0, 0.0));
    assert!(arc.start() == point(0.0, 0.0));
    assert!(arc.stop() == point(0.0, 0.0));
}

#[test]
fn segments_on_one_line() {
    let a = Line::new(point(0.0, 1.0), point(4.0, 1.0)).unwrap();
    let overlapping = Line::new(point(2.0, 1.0), point(8.0, 1.0)).unwrap();
    let touching = Line::new(point(4.0, 1.0), point(8.0, 1.0)).unwrap();
    let apart = Line::new(point(6.0, 1.0), point(8.0, 1.0)).unwrap();
    assert!(matches!(a.intersect(&overlapping), LineIntersection::Many));
    assert!(matches!(a.intersect(&apart), LineIntersection::ManyOutOfBounds));
    assert!(matches!(apart.intersect(&a), LineIntersection::ManyOutOfBounds));
    match a.intersect(&touching) {
        LineIntersection::OnePoint(p) => assert!(point_close(p, 4.0, 1.0)),
        _ => unreachable!(),
    }
    match touching.intersect(&a) {
        LineIntersection::OnePoint(p) => assert!(point_close(p, 4.0, 1.0)),
        _ => unreachable!(),
    }
}

fn quarter_arc() -> Arc<F> {
    Arc::from_center(point(0.0, 0.0), point(1.0, 0.0), point(0.0, 1.0)).unwrap()
}

#[test]
fn arc_of_one_point_is_refused() {
    let error = Arc::new(point(1.0, 1.0), point(1.0, 1.0), angle(1.0)).unwrap_err();
    assert_eq!(error.kind, CurvyErrorKind::SamePoints);
}

#[test]
fn arc_new_counterclockwise() {
    let arc = Arc::new(point(1.0, 1.0), point(-1.0, 1.0), angle(3.0 * PI / 4.0)).unwrap();
    assert!(point_close(arc.center, 0.0, 0.0));
    assert!(close(raw(arc.radius), 2.0_f64.sqrt()));
    // The start angle is the direction from the centre to the start.
    assert!(close(raw(arc.start_angle().radians()), PI / 4.0));
    assert!(close(raw(arc.stop_diff.radians()), PI / 2.0));
    assert!(close(raw(arc.stop_angle().radians()), 3.0 * PI / 4.0));
    assert!(point_close(arc.start(), 1.0, 1.0));
    assert!(point_close(arc.stop(), -1.0, 1.0));
    assert!(arc.sweep_flag());
}

#[test]
fn arc_new_begins_where_the_start_lies_from_the_centre() {
    // A quarter circle from (1, 0) to (0, 1) that leaves upwards.
    let arc = Arc::new(point(1.0, 0.0), point(0.0, 1.0), angle(PI / 2.0)).unwrap();
    assert!(point_close(arc.center, 0.0, 0.0));
    assert!(close(raw(arc.start_angle().radians()), 0.0));
    assert!(close(raw(arc.stop_angle().radians()), PI / 2.0));
    assert!(point_close(arc.start(), 1.0, 0.0));
    assert!(point_close(arc.stop(), 0.0, 1.0));
    // The same two points the other way round, leaving to the right.
    let back = Arc::new(point(0.0, 1.0), point(1.0, 0.0), angle(0.0)).unwrap();
    assert!(point_close(back.center, 0.0, 0.0));
    assert!(close(raw(back.start_angle().radians()), PI / 2.0));
    assert!(close(raw(back.stop_diff.radians()), -PI / 2.0));
    assert!(point_close(back.start(), 0.0, 1.0));
    assert!(point_close(back.stop(), 1.0, 0.0));
    assert!(!back.sweep_flag());
    // Away from the origin, and through more than a quarter turn.
    let wide = Arc::new(point(5.0, 2.0), point(2.0, 5.0), angle(PI / 2.0)).unwrap();
    assert!(point_close(wide.center, 2.0, 2.0));
    assert!(close(raw(wide.radius), 3.0));
    assert!(close(raw(wide.start_angle().radians()), 0.0));
    assert!(point_close(wide.start(), 5.0, 2.0));
    assert!(point_close(wide.stop(), 2.0, 5.0));
}

#[test]
fn arc_that_leaves_along_its_chord_is_undefinable() {
    let error = Arc::new(point(0.0, 0.0), point(2.0, 0.0), angle(0.0)).unwrap_err();
    assert_eq!(error.kind, CurvyErrorKind::Undefinable);
    assert_eq!(error.message(), "Undefinable circular arc");
}

#[test]
fn arc_from_center_checks_the_two_distances() {
    let arc = quarter_arc();
    assert!(arc.center == point(0.0, 0.0));
    assert_eq!(raw(arc.radius), 1.0);
    assert_eq!(raw(arc.start_angle().radians()), 0.0);
    assert!(close(raw(arc.stop_diff.radians()), PI / 2.0));
    assert!(close(raw(arc.stop_angle().radians()), PI / 2.0));
    let error = Arc::from_center(point(0.0, 0.0), point(1.0, 0.0), point(0.0, 2.0)).unwrap_err();
    assert_eq!(error.kind, CurvyErrorKind::Undefinable);
}

#[test]
fn arc_points_and_bounds() {
    let arc = Arc::from_center(point(1.0, 1.0), point(3.0, 1.0), point(1.0, 3.0)).unwrap();
    assert_eq!(raw(arc.radius), 2.0);
    assert!(point_close(arc.start(), 3.0, 1.0));
    assert!(point_close(arc.stop(), 1.0, 3.0));
    assert_eq!(raw(arc.begin()), 0.0);
    assert!(close(raw(arc.end()), PI));
    assert!(close(raw(arc.length()), PI));
    assert!(point_close(arc.apply_angle(angle(PI)), -1.0, 1.0));
    assert!(point_close(arc.apply(f(PI / 2.0)), 1.0 + 2.0_f64.sqrt(), 1.0 + 2.0_f64.sqrt()));
    assert!(arc.apply_bounded(f(1.0)).is_some());
    assert!(point_close(arc.apply_bounded(f(PI / 2.0)).unwrap(), 1.0 + 2.0_f64.sqrt(), 1.0 + 2.0_f64.sqrt()));
    assert!(arc.apply_bounded(f(-0.5)).is_none());
    assert!(arc.apply_bounded(f(4.0)).is_none());
    assert!(close(raw(arc.signed_distance(point(1.0, 5.0))), PI));
}

#[test]
fn arc_corner_and_curve_size() {
    let arc = quarter_arc();
    assert!(point_close(arc.control_point().unwrap(), 1.0, 1.0));
    assert!(close(raw(arc.curve_size().unwrap()), 1.0));
    assert!(arc.sweep_flag());
    let back = Arc::from_center(point(0.0, 0.0), point(0.0, 1.0), point(1.0, 0.0)).unwrap();
    assert!(!back.sweep_flag());
}

#[test]
fn arc_offset_adds_to_the_radius() {
    let arc = quarter_arc();
    let grown = arc.offset(f(0.5));
    assert_eq!(raw(grown.radius), 1.5);
    assert!(grown.center == arc.center);
    assert!(grown.start_angle() == arc.start_angle());
    assert_eq!(raw(grown.stop_diff.radians()), raw(arc.stop_diff.radians()));
    assert!(point_close(grown.start(), 1.5, 0.0));
    assert!(point_close(grown.stop(), 0.0, 1.5));
    let inverted = arc.offset(f(-3.0));
    assert_eq!(raw(inverted.radius), -2.0);
    assert!(raw(arc.length()) > 0.0 && raw(inverted.length()) < 0.0);
    assert!(arc.begin().less(arc.end()));
    assert!(inverted.end().less(inverted.begin()));
}

#[test]
fn arc_intersection_point_is_filed_by_two_tests() {
    let p = point(1.0, 2.0);
    assert!(matches!(ArcIntersectionPoint::new(true, true, p), ArcIntersectionPoint::InBounds(_)));
    assert!(matches!(ArcIntersectionPoint::new(false, true, p), ArcIntersectionPoint::InArcBounds(_)));
    assert!(matches!(ArcIntersectionPoint::new(true, false, p), ArcIntersectionPoint::InLineBounds(_)));
    assert!(matches!(ArcIntersectionPoint::new(false, false, p), ArcIntersectionPoint::OutOfBounds(_)));
    assert!(ArcIntersectionPoint::new(false, true, p).point() == p);
}

#[test]
fn arc_and_line_by_the_sign_of_the_discriminant() {
    let arc = quarter_arc();
    let line = Line::new(point(-2.0, 0.5), point(2.0, 0.5)).unwrap();
    assert!(matches!(arc.solve(&line, f(1.0), f(0.0), f(1.0)), ArcIntersection::Empty));
    match arc.solve(&line, f(1.0), f(-0.5), f(0.25)) {
        ArcIntersection::One(ArcIntersectionPoint::InBounds(p)) => assert!(point_close(p, 0.5, 0.5)),
        _ => unreachable!(),
    }
    match arc.solve(&line, f(1.0), f(3.0), f(9.0)) {
        ArcIntersection::One(ArcIntersectionPoint::OutOfBounds(p)) => assert!(point_close(p, -3.0, 0.5)),
        _ => unreachable!(),
    }
    match arc.solve(&line, f(1.0), f(0.0), f(-1.0)) {
        ArcIntersection::Two(first, second) => {
            assert!(point_close(first.point(), 1.0, 0.5));
            assert!(point_close(second.point(), -1.0, 0.5));
        }
        _ => unreachable!(),
    }
}

#[test]
fn arc_cut_by_a_line() {
    let arc = quarter_arc();
    let line = Line::new(point(-2.0, 0.5), point(2.0, 0.5)).unwrap();
    let (a, b, c) = arc.quadratic(&line);
    assert!(close(raw(a), 1.0) && close(raw(b), 0.0) && close(raw(c), -0.75));
    match arc.intersect(&line) {
        ArcIntersection::Two(first, second) => {
            assert!(point_close(first.point(), 0.75_f64.sqrt(), 0.5));
            assert!(point_close(second.point(), -0.75_f64.sqrt(), 0.5));
            assert!(matches!(first, ArcIntersectionPoint::InBounds(_)));
            assert!(matches!(second, ArcIntersectionPoint::InBounds(_)));
        }
        _ => unreachable!(),
    }
    assert!(matches!(line.intersect(&arc), ArcIntersection::Two(_, _)));
}

#[test]
fn arc_touched_by_a_line() {
    let arc = Arc {
        center: point(0.0, 0.0),
        radius: f(1.0),
        start_angle: angle(0.0),
        stop_diff: AngleDiff(f(3.0)),
    };
    let line = Line::new(point(-1.0, 1.0), point(1.0, 1.0)).unwrap();
    let (a, b, c) = arc.quadratic(&line);
    assert_eq!(raw(a), 1.0);
    assert_eq!(raw(b), 0.0);
    assert_eq!(raw(c), 0.0);
    match arc.intersect(&line) {
        ArcIntersection::One(ArcIntersectionPoint::InBounds(p)) => assert!(point_close(p, 0.0, 1.0)),
        _ => unreachable!(),
    }
    match line.intersect(&arc) {
        ArcIntersection::One(ArcIntersectionPoint::InBounds(p)) => assert!(point_close(p, 0.0, 1.0)),
        _ => unreachable!(),
    }
    // Touched beyond the segment, and beyond the arc's span.
    let short = Line::new(point(1.0, 1.0), point(3.0, 1.0)).unwrap();
    match arc.intersect(&short) {
        ArcIntersection::One(ArcIntersectionPoint::OutOfBounds(p)) => assert!(point_close(p, 0.0, 1.0)),
        _ => unreachable!(),
    }
    let below = Line::new(point(-1.0, -1.0), point(1.0, -1.0)).unwrap();
    match arc.intersect(&below) {
        ArcIntersection::One(ArcIntersectionPoint::OutOfBounds(p)) => assert!(point_close(p, 0.0, -1.0)),
        _ => unreachable!(),
    }
    // Touched away from the foot of the centre on the line.
    let aside = Arc::from_center(point(0.1, 0.75), point(1.1, 0.75), point(0.1, 1.75)).unwrap();
    let over = Line::new(point(-1.0, 1.75), point(1.0, 1.75)).unwrap();
    match aside.intersect(&over) {
        ArcIntersection::One(ArcIntersectionPoint::InBounds(p)) => assert!(point_close(p, 0.1, 1.75)),
        _ => unreachable!(),
    }
    // Touched from the side, by a line that runs upwards.
    let circle = Arc::from_center(point(3.0, 4.0), point(8.0, 4.0), point(3.0, 9.0)).unwrap();
    let upright = Line::new(point(8.0, 0.0), point(8.0, 8.0)).unwrap();
    match circle.intersect(&upright) {
        ArcIntersection::One(hit) => assert!(point_close(hit.point(), 8.0, 4.0)),
        _ => unreachable!(),
    }
}

#[test]
fn arc_cut_beyond_its_span_and_beyond_the_segment() {
    let arc = quarter_arc();
    let below = Line::new(point(-2.0, -0.5), point(0.0, -0.5)).unwrap();
    match arc.intersect(&below) {
        ArcIntersection::Two(first, second) => {
            assert!(point_close(first.point(), 0.75_f64.sqrt(), -0.5));
            assert!(point_close(second.point(), -0.75_f64.sqrt(), -0.5));
            assert!(matches!(first, ArcIntersectionPoint::OutOfBounds(_)));
            assert!(matches!(second, ArcIntersectionPoint::InLineBounds(_)));
        }
        _ => unreachable!(),
    }
    let above = Line::new(point(0.0, 0.5), point(0.5, 0.5)).unwrap();
    match arc.intersect(&above) {
        ArcIntersection::Two(first, second) => {
            assert!(matches!(first, ArcIntersectionPoint::InArcBounds(_)));
            assert!(matches!(second, ArcIntersectionPoint::InArcBounds(_)));
        }
        _ => unreachable!(),
    }
}

#[test]
fn arc_passed_by_a_line() {
    let arc = quarter_arc();
    let far = Line::new(point(-2.0, 3.0), point(2.0, 3.0)).unwrap();
    assert!(matches!(arc.intersect(&far), ArcIntersection::Empty));
    assert!(matches!(far.intersect(&arc), ArcIntersection::Empty));
}

#[test]
fn two_arcs_are_not_intersected() {
    let arc = quarter_arc();
    let error = arc.intersect(&arc.offset(f(1.0))).unwrap_err();
    assert_eq!(error.kind, CurvyErrorKind::Unsupported);
    assert_eq!(error.message(), "Unsupported operation");
}

/// A sequence of numbers in `[0, 1)` that is the same in every run.
struct Numbers(u64);

impl Numbers {
    fn next(&mut self) -> f64 {
        self.0 = self.0.wrapping_mul(6364136223846793005).wrapping_add(1442695040888963407);
        ((self.0 >> 11) as f64) / ((1u64 << 53) as f64)
    }

    fn within(&mut self, low: f64, high: f64) -> f64 {
        low + (high - low) * self.next()
    }
}

fn near(a: f64, b: f64) -> bool {
    a.abs_diff_eq(&b, 1e-8)
}

#[test]
fn many_lines_give_back_their_points() {
    let mut numbers = Numbers(7);
    for _ in 0..500 {
        let (x1, y1) = (numbers.within(-50.0, 50.0), numbers.within(-50.0, 50.0));
        let (x2, y2) = (numbers.within(-50.0, 50.0), numbers.within(-50.0, 50.0));
        let line = Line::new(point(x1, y1), point(x2, y2)).unwrap();
        assert!(near(raw(line.start().x), x1) && near(raw(line.start().y), y1));
        assert!(near(raw(line.stop().x), x2) && near(raw(line.stop().y), y2));
        assert!(raw(line.begin()) <= raw(line.end()));
        assert!(near(raw(line.length()), ((x2 - x1).powi(2) + (y2 - y1).powi(2)).sqrt()));
        // The foot point lies on the line, at right angles to it from the origin.
        let foot = line.point_nearest_origin();
        assert!(near(raw(foot.x) * (x2 - x1) + raw(foot.y) * (y2 - y1), 0.0));
        assert!(near(raw(line.signed_distance(point(x1, y1))), raw(line.begin())));
        assert!(near(raw(line.signed_distance(point(x2, y2))), raw(line.end())));
    }
}

#[test]
fn many_crossing_points_lie_on_both_lines() {
    let mut numbers = Numbers(11);
    let mut met = 0;
    for _ in 0..500 {
        let a = Line::new(
            point(numbers.within(-20.0, 20.0), numbers.within(-20.0, 20.0)),
            point(numbers.within(-20.0, 20.0), numbers.within(-20.0, 20.0)),
        )
        .unwrap();
        let b = Line::new(
            point(numbers.within(-20.0, 20.0), numbers.within(-20.0, 20.0)),
            point(numbers.within(-20.0, 20.0), numbers.within(-20.0, 20.0)),
        )
        .unwrap();
        let sine = (raw(a.angle.radians()) - raw(b.angle.radians())).sin();
        if sine.abs() < 0.05 {
            continue;
        }
        let found = a.intersect(&b);
        let p = found.point().unwrap();
        // On a line, a point has the distance of the line from the origin.
        let along_a = a.apply(a.signed_distance(p));
        let along_b = b.apply(b.signed_distance(p));
        assert!(near(raw(along_a.x), raw(p.x)) && near(raw(along_a.y), raw(p.y)));
        assert!(near(raw(along_b.x), raw(p.x)) && near(raw(along_b.y), raw(p.y)));
        let inside = a.apply_bounded(a.signed_distance(p)).is_some()
            && b.apply_bounded(b.signed_distance(p)).is_some();
        assert_eq!(matches!(found, LineIntersection::OnePoint(_)), inside);
        assert_eq!(matches!(found, LineIntersection::OutOfBounds(_)), !inside);
        if inside {
            met += 1;
        }
        // The other way round the point is the same.
        let back = b.intersect(&a).point().unwrap();
        assert!(near(raw(back.x), raw(p.x)) && near(raw(back.y), raw(p.y)));
    }
    assert!(met > 10);
}

#[test]
fn many_arcs_run_through_their_points() {
    let mut numbers = Numbers(13);
    for _ in 0..300 {
        let (cx, cy) = (numbers.within(-10.0, 10.0), numbers.within(-10.0, 10.0));
        let radius = numbers.within(0.5, 8.0);
        let from = numbers.within(0.0, 2.0 * PI);
        let sweep = numbers.within(-3.0, 3.0);
        let start = point(cx + radius * from.cos(), cy + radius * from.sin());
        let stop = point(cx + radius * (from + sweep).cos(), cy + radius * (from + sweep).sin());
        if start == stop {
            continue;
        }
        let arc = match Arc::from_center(point(cx, cy), start, stop) {
            Ok(arc) => arc,
            Err(error) => {
                // The two radii differ by a rounding or two.
                assert_eq!(error.kind, CurvyErrorKind::Undefinable);
                continue;
            }
        };
        assert!(near(raw(arc.radius), radius));
        assert!(near(raw(arc.stop_diff.radians()), sweep));
        assert!(near(raw(arc.start().x), raw(start.x)) && near(raw(arc.start().y), raw(start.y)));
        assert!(near(raw(arc.stop().x), raw(stop.x)) && near(raw(arc.stop().y), raw(stop.y)));
        assert!(near(raw(arc.length()), sweep * radius));
        assert_eq!(arc.sweep_flag(), sweep > 0.0);
        // Leaving the start along the tangent gives the same circle.
        let tangent = (from + PI / 2.0).rem_euclid(2.0 * PI);
        if sweep.abs() > 0.1 && tangent < 2.0 * PI {
            let again = Arc::new(start, stop, angle(tangent)).unwrap();
            assert!(raw(again.center.x).abs_diff_eq(&cx, 1e-6));
            assert!(raw(again.center.y).abs_diff_eq(&cy, 1e-6));
            assert!(raw(again.radius).abs_diff_eq(&radius, 1e-6));
            // It begins where the start lies from the centre, whichever way it turns.
            let turned = raw(again.start_angle().radians()) - from;
            assert!(turned.sin().abs() < 1e-6 && turned.cos() > 0.0);
            assert!(raw(again.stop_diff.radians()).abs_diff_eq(&sweep, 1e-6));
            assert!(raw(again.start().x).abs_diff_eq(&raw(start.x), 1e-6));
            assert!(raw(again.start().y).abs_diff_eq(&raw(start.y), 1e-6));
            assert!(raw(again.stop().x).abs_diff_eq(&raw(stop.x), 1e-6));
            assert!(raw(again.stop().y).abs_diff_eq(&raw(stop.y), 1e-6));
            assert_eq!(again.sweep_flag(), sweep > 0.0);
        }
    }
}

#[test]
fn many_lines_cut_a_circle_where_they_should() {
    let mut numbers = Numbers(17);
    let arc = Arc::from_center(point(1.0, -2.0), point(4.0, -2.0), point(1.0, 1.0)).unwrap();
    let mut cut = 0;
    for _ in 0..500 {
        let line = Line::new(
            point(numbers.within(-6.0, 8.0), numbers.within(-9.0, 5.0)),
            point(numbers.within(-6.0, 8.0), numbers.within(-9.0, 5.0)),
        )
        .unwrap();
        let nearest = line.apply(line.signed_distance(point(1.0, -2.0)));
        let distance = ((raw(nearest.x) - 1.0).powi(2) + (raw(nearest.y) + 2.0).powi(2)).sqrt();
        if (distance - 3.0).abs() < 1e-3 {
            continue;
        }
        match arc.intersect(&line) {
            ArcIntersection::Empty => assert!(distance > 3.0),
            ArcIntersection::Two(first, second) => {
                assert!(distance < 3.0);
                cut += 1;
                for hit in [first, second] {
                    let p = hit.point();
                    let from_centre = ((raw(p.x) - 1.0).powi(2) + (raw(p.y) + 2.0).powi(2)).sqrt();
                    assert!(near(from_centre, 3.0));
                    let back = line.apply(line.signed_distance(p));
                    assert!(near(raw(back.x), raw(p.x)) && near(raw(back.y), raw(p.y)));
                    let t = raw(line.signed_distance(p));
                    let on_line = raw(line.begin()) <= t && t < raw(line.end());
                    let in_line = matches!(
                        hit,
                        ArcIntersectionPoint::InBounds(_) | ArcIntersectionPoint::InLineBounds(_)
                    );
                    if (t - raw(line.begin())).abs() > 1e-6 && (t - raw(line.end())).abs() > 1e-6 {
                        assert_eq!(in_line, on_line);
                    }
                }
            }
            _ => unreachable!(),
        }
    }
    assert!(cut > 50);
}
