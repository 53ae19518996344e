//! Polylines and polygons: their segments, their offsetting, and the rounding
//! of their corners.
use vstd::prelude::*;
use crate::geometry::base::{smaller, spec_smaller, Value};
use crate::geometry::error::{CurvyError, CurvyErrorKind, CurvyResult};
use crate::geometry::line::Line;
use crate::geometry::offset::Offset;
use crate::geometry::point::Point;
use crate::geometry::stitch::{
    close, edge, spec_edge, spec_polygon_offset, spec_polyline_offset, starts, stitch,
};

verus! {

/// An open chain of two or more points.
#[derive(Debug)]
pub struct Polyline<T: Value>(Vec<Point<T>>);

/// A closed chain of three or more points: the last is joined to the first.
#[derive(Debug)]
pub struct Polygon<T: Value>(Vec<Point<T>>);

/// A polyline with the size of the rounding of each inner corner: one size
/// for every point but the first and the last.
#[derive(Debug)]
pub struct Polyarc<T: Value> {
    polyline: Polyline<T>,
    curve_sizes: Vec<T>,
}

/// A polygon with the size of the rounding of each corner.
#[derive(Debug)]
pub struct Polycurve<T: Value> {
    polygon: Polygon<T>,
    curve_sizes: Vec<T>,
}

/// A shape that is made of line segments.
pub trait Segmented<T: Value> {
    type SegmentIterator;

    fn iter_segments(self) -> Self::SegmentIterator;
}

/// A shape whose corners can be rounded.
pub trait Curved<T: Value> {
    type CurvedResult;

    fn curve(&self, size: T) -> Self::CurvedResult;
}

/// Walks the segments of a polyline in order.
pub struct PolylineSegmentIterator<'a, T: Value> {
    index: usize,
    polyline: &'a Polyline<T>,
}

/// Walks the segments of a polygon in order, the closing one last.
pub struct PolygonSegmentIterator<'a, T: Value> {
    index: usize,
    polygon: &'a Polygon<T>,
}

/// The items of the vector, in a vector of their own.
pub fn copied<A: Copy>(items: &Vec<A>) -> (r: Vec<A>)
    ensures
        r@ == items@,
{
    let mut copy: Vec<A> = Vec::with_capacity(items.len());
    let mut i: usize = 0;
    while i < items.len()
        invariant
            i <= items.len(),
            copy@ == items@.take(i as int),
        decreases items.len() - i,
    {
        copy.push(items[i]);
        assert(copy@ =~= items@.take(i + 1));
        i += 1;
    }
    assert(items@.take(items.len() as int) =~= items@);
    copy
}

/// The size of the rounding of a corner: the requested size, but no more
/// than half the shorter of the two edges that meet in the corner.
pub open spec fn spec_fillet<T: Value>(edge: T, previous: T, size: T) -> T {
    spec_smaller(spec_smaller(edge, previous).quotient(T::two_value()), size)
}

/// The size of the rounding of a corner between two edges of the given
/// lengths.
pub fn fillet<T: Value>(edge: T, previous: T, size: T) -> (r: T)
    ensures
        r == spec_fillet(edge, previous, size),
        r.rank() <= size.rank(),
        r.rank() <= spec_smaller(edge, previous).quotient(T::two_value()).rank(),
{
    proof {
        T::constants_in_order();
    }
    smaller(smaller(edge, previous).over(T::two()), size)
}

/// The rounding of a corner never exceeds the requested size, nor half the
/// shorter of the corner's two edges, whatever size is requested.
pub proof fn law_fillet_within_half_edge<T: Value>(edge: T, previous: T, size: T)
    ensures
        spec_fillet(edge, previous, size).rank() <= size.rank(),
        spec_fillet(edge, previous, size).rank() <= spec_smaller(edge, previous).quotient(
            T::two_value(),
        ).rank(),
        spec_smaller(edge, previous).rank() <= edge.rank(),
        spec_smaller(edge, previous).rank() <= previous.rank(),
{
}

/// Whether each of the first `count` edges of a chain has two different end
/// points.
pub open spec fn edges_defined<T: Value>(points: Seq<Point<T>>, count: int) -> bool {
    forall|i: int| 0 <= i < count ==> (#[trigger] spec_edge(points, i)) is Ok
}

/// The length of the edge that begins in point `i`.
pub open spec fn spec_edge_length<T: Value>(points: Seq<Point<T>>, i: int) -> T {
    spec_edge(points, i)->Ok_0.spec_length()
}

/// The sizes of the roundings of the inner corners of a polyline: for each
/// point but the first and the last, the fillet between the edge that
/// begins there and the one that ends there.
pub open spec fn spec_polyline_fillets<T: Value>(points: Seq<Point<T>>, size: T) -> Seq<T> {
    Seq::new(
        (points.len() - 2) as nat,
        |j: int| spec_fillet(spec_edge_length(points, j + 1), spec_edge_length(points, j), size),
    )
}

/// The sizes of the roundings of the corners of a polygon: for each point,
/// the fillet between the edge that begins there and the one that ends
/// there, which for the first point is the closing edge.
pub open spec fn spec_polygon_fillets<T: Value>(points: Seq<Point<T>>, size: T) -> Seq<T> {
    Seq::new(
        points.len(),
        |j: int|
            spec_fillet(
                spec_edge_length(points, j),
                spec_edge_length(
                    points,
                    if j == 0 {
                        points.len() - 1
                    } else {
                        j - 1
                    },
                ),
                size,
            ),
    )
}

/// The lengths of the first `count` edges of a chain. An error where one of
/// them has two equal end points.
pub fn edge_lengths<T: Value>(points: &Vec<Point<T>>, count: usize) -> (r: CurvyResult<Vec<T>>)
    requires
        count <= points.len(),
    ensures
        edges_defined(points@, count as int) <==> r is Ok,
        r is Err ==> r->Err_0 == CurvyError::same_points(),
        r is Ok ==> r->Ok_0@.len() == count,
        r is Ok ==> forall|i: int| 0 <= i < count ==> r->Ok_0@[i] == spec_edge_length(points@, i),
{
    let mut lengths: Vec<T> = Vec::with_capacity(count);
    let mut i: usize = 0;
    while i < count
        invariant
            i <= count <= points.len(),
            edges_defined(points@, i as int),
            lengths@.len() == i,
            forall|k: int| 0 <= k < i ==> lengths@[k] == spec_edge_length(points@, k),
        decreases count - i,
    {
        match edge(points, i) {
            Ok(line) => {
                lengths.push(line.length());
            },
            Err(e) => {
                assert(!(spec_edge(points@, i as int) is Ok));
                return Err(e);
            },
        }
        i += 1;
    }
    Ok(lengths)
}

impl<T: Value> View for Polyline<T> {
    type V = Seq<Point<T>>;

    closed spec fn view(&self) -> Seq<Point<T>> {
        self.0@
    }
}

impl<T: Value> Polyline<T> {
    #[verifier::type_invariant]
    spec fn inv(self) -> bool {
        self.0@.len() >= 2
    }

    /// The polyline through the given points. An error where they are fewer
    /// than two.
    pub fn new(points: Vec<Point<T>>) -> (r: CurvyResult<Polyline<T>>)
        ensures
            points@.len() >= 2 ==> r is Ok && r->Ok_0@ == points@,
            points@.len() < 2 ==> r == Err::<Polyline<T>, CurvyError>(CurvyError::collapsed()),
    {
        if points.len() >= 2 {
            Ok(Polyline(points))
        } else {
            Err(CurvyError { kind: CurvyErrorKind::Collapsed })
        }
    }

    /// The points of the polyline, of which there are at least two.
    pub fn points(&self) -> (r: &Vec<Point<T>>)
        ensures
            r@ == self@,
            r@.len() >= 2,
    {
        proof {
            use_type_invariant(self);
        }
        &self.0
    }

    /// The point in which the polyline begins: its first.
    pub fn start(&self) -> (r: Point<T>)
        ensures
            r == self@.first(),
    {
        proof {
            use_type_invariant(self);
        }
        self.0[0]
    }

    /// The point in which the polyline ends: its last.
    pub fn stop(&self) -> (r: Point<T>)
        ensures
            r == self@.last(),
    {
        proof {
            use_type_invariant(self);
        }
        self.0[self.0.len() - 1]
    }
}

impl<T: Value> Clone for Polyline<T> {
    fn clone(&self) -> (r: Polyline<T>)
        ensures
            r@ == self@,
    {
        proof {
            use_type_invariant(self);
        }
        Polyline(copied(&self.0))
    }
}

impl<T: Value> View for Polygon<T> {
    type V = Seq<Point<T>>;

    closed spec fn view(&self) -> Seq<Point<T>> {
        self.0@
    }
}

impl<T: Value> Polygon<T> {
    #[verifier::type_invariant]
    spec fn inv(self) -> bool {
        self.0@.len() >= 3
    }

    /// The polygon through the given points. An error where they are fewer
    /// than three.
    pub fn new(points: Vec<Point<T>>) -> (r: CurvyResult<Polygon<T>>)
        ensures
            points@.len() >= 3 ==> r is Ok && r->Ok_0@ == points@,
            points@.len() < 3 ==> r == Err::<Polygon<T>, CurvyError>(CurvyError::collapsed()),
    {
        if points.len() >= 3 {
            Ok(Polygon(points))
        } else {
            Err(CurvyError { kind: CurvyErrorKind::Collapsed })
        }
    }

    /// The points of the polygon, of which there are at least three.
    pub fn points(&self) -> (r: &Vec<Point<T>>)
        ensures
            r@ == self@,
            r@.len() >= 3,
    {
        proof {
            use_type_invariant(self);
        }
        &self.0
    }

    /// The point in which the walk round the polygon begins: its first.
    pub fn start(&self) -> (r: Point<T>)
        ensures
            r == self@.first(),
    {
        proof {
            use_type_invariant(self);
        }
        self.0[0]
    }

    /// The point in which the walk round the polygon ends: its first again,
    /// to which the last is joined.
    pub fn stop(&self) -> (r: Point<T>)
        ensures
            r == self@.first(),
    {
        proof {
            use_type_invariant(self);
        }
        self.0[0]
    }
}

impl<T: Value> Clone for Polygon<T> {
    fn clone(&self) -> (r: Polygon<T>)
        ensures
            r@ == self@,
    {
        proof {
            use_type_invariant(self);
        }
        Polygon(copied(&self.0))
    }
}

impl<T: Value> Polyarc<T> {
    #[verifier::type_invariant]
    spec fn inv(self) -> bool {
        self.curve_sizes@.len() + 2 == self.polyline@.len()
    }

    /// The polyline whose corners are rounded.
    pub closed spec fn spec_polyline(self) -> Seq<Point<T>> {
        self.polyline@
    }

    /// The sizes of the roundings, one for each inner corner.
    pub closed spec fn spec_curve_sizes(self) -> Seq<T> {
        self.curve_sizes@
    }

    /// The polyline whose corners are rounded.
    pub fn polyline(&self) -> (r: &Polyline<T>)
        ensures
            r@ == self.spec_polyline(),
    {
        &self.polyline
    }

    /// The sizes of the roundings: one for each point of the polyline but
    /// the first and the last.
    pub fn curve_sizes(&self) -> (r: &Vec<T>)
        ensures
            r@ == self.spec_curve_sizes(),
            r@.len() + 2 == self.spec_polyline().len(),
    {
        proof {
            use_type_invariant(self);
        }
        &self.curve_sizes
    }
}

impl<T: Value> Clone for Polyarc<T> {
    fn clone(&self) -> (r: Polyarc<T>)
        ensures
            r.spec_polyline() == self.spec_polyline(),
            r.spec_curve_sizes() == self.spec_curve_sizes(),
    {
        proof {
            use_type_invariant(self);
        }
        Polyarc { polyline: self.polyline.clone(), curve_sizes: copied(&self.curve_sizes) }
    }
}

impl<T: Value> Polycurve<T> {
    #[verifier::type_invariant]
    spec fn inv(self) -> bool {
        self.curve_sizes@.len() == self.polygon@.len()
    }

    /// The polygon whose corners are rounded.
    pub closed spec fn spec_polygon(self) -> Seq<Point<T>> {
        self.polygon@
    }

    /// The sizes of the roundings, one for each corner.
    pub closed spec fn spec_curve_sizes(self) -> Seq<T> {
        self.curve_sizes@
    }

    /// The polygon whose corners are rounded.
    pub fn polygon(&self) -> (r: &Polygon<T>)
        ensures
            r@ == self.spec_polygon(),
    {
        &self.polygon
    }

    /// The sizes of the roundings: one for each point of the polygon.
    pub fn curve_sizes(&self) -> (r: &Vec<T>)
        ensures
            r@ == self.spec_curve_sizes(),
            r@.len() == self.spec_polygon().len(),
    {
        proof {
            use_type_invariant(self);
        }
        &self.curve_sizes
    }
}

impl<T: Value> Clone for Polycurve<T> {
    fn clone(&self) -> (r: Polycurve<T>)
        ensures
            r.spec_polygon() == self.spec_polygon(),
            r.spec_curve_sizes() == self.spec_curve_sizes(),
    {
        proof {
            use_type_invariant(self);
        }
        Polycurve { polygon: self.polygon.clone(), curve_sizes: copied(&self.curve_sizes) }
    }
}

impl<'a, T: Value> PolylineSegmentIterator<'a, T> {
    #[verifier::type_invariant]
    spec fn inv(self) -> bool {
        self.index < self.polyline@.len()
    }

    /// The points of the polyline that is walked.
    pub closed spec fn spec_points(self) -> Seq<Point<T>> {
        self.polyline@
    }

    /// How many segments were handed out.
    pub closed spec fn spec_index(self) -> int {
        self.index as int
    }

    /// The next segment, if one is left: the edge that begins in the point
    /// at which the walk stands.
    pub fn next(&mut self) -> (r: Option<CurvyResult<Line<T>>>)
        ensures
            final(self).spec_points() == old(self).spec_points(),
            old(self).spec_index() + 1 < old(self).spec_points().len() ==> r == Some(
                spec_edge(old(self).spec_points(), old(self).spec_index()),
            ) && final(self).spec_index() == old(self).spec_index() + 1,
            old(self).spec_index() + 1 >= old(self).spec_points().len() ==> r.is_none() && final(self).spec_index() == old(self).spec_index(),
    {
        proof {
            use_type_invariant(&*self);
        }
        let points = self.polyline.points();
        if self.index >= points.len() - 1 {
            return None;
        }
        let segment = edge(points, self.index);
        self.index += 1;
        Some(segment)
    }
}

impl<'a, T: Value> Segmented<T> for &'a Polyline<T> {
    type SegmentIterator = PolylineSegmentIterator<'a, T>;

    /// A walk over the segments, which stands at the first.
    fn iter_segments(self) -> (r: PolylineSegmentIterator<'a, T>)
        ensures
            r.spec_points() == self@,
            r.spec_index() == 0,
    {
        proof {
            use_type_invariant(self);
        }
        PolylineSegmentIterator { index: 0, polyline: self }
    }
}

impl<'a, T: Value> PolygonSegmentIterator<'a, T> {
    #[verifier::type_invariant]
    spec fn inv(self) -> bool {
        self.index <= self.polygon@.len()
    }

    /// The points of the polygon that is walked.
    pub closed spec fn spec_points(self) -> Seq<Point<T>> {
        self.polygon@
    }

    /// How many segments were handed out.
    pub closed spec fn spec_index(self) -> int {
        self.index as int
    }

    /// The next segment, if one is left: the edge that begins in the point
    /// at which the walk stands, the last one leading back to the first
    /// point.
    pub fn next(&mut self) -> (r: Option<CurvyResult<Line<T>>>)
        ensures
            final(self).spec_points() == old(self).spec_points(),
            old(self).spec_index() < old(self).spec_points().len() ==> r == Some(
                spec_edge(old(self).spec_points(), old(self).spec_index()),
            ) && final(self).spec_index() == old(self).spec_index() + 1,
            old(self).spec_index() >= old(self).spec_points().len() ==> r.is_none() && final(self).spec_index() == old(self).spec_index(),
    {
        proof {
            use_type_invariant(&*self);
        }
        let points = self.polygon.points();
        if self.index >= points.len() {
            return None;
        }
        let segment = edge(points, self.index);
        self.index += 1;
        Some(segment)
    }
}

impl<'a, T: Value> Segmented<T> for &'a Polygon<T> {
    type SegmentIterator = PolygonSegmentIterator<'a, T>;

    /// A walk over the segments, which stands at the first.
    fn iter_segments(self) -> (r: PolygonSegmentIterator<'a, T>)
        ensures
            r.spec_points() == self@,
            r.spec_index() == 0,
    {
        PolygonSegmentIterator { index: 0, polygon: self }
    }
}

impl<T: Value> Curved<T> for Polyline<T> {
    type CurvedResult = CurvyResult<Polyarc<T>>;

    /// The polyline with each inner corner rounded by `size`, or by half
    /// the shorter of the corner's two edges where that is less. An error
    /// where two neighbouring points are the same.
    fn curve(&self, size: T) -> (r: CurvyResult<Polyarc<T>>)
        ensures
            edges_defined(self@, self@.len() - 1) <==> r is Ok,
            r is Err ==> r->Err_0 == CurvyError::same_points(),
            r is Ok ==> r->Ok_0.spec_polyline() == self@,
            r is Ok ==> r->Ok_0.spec_curve_sizes() == spec_polyline_fillets(self@, size),
    {
        let points = self.points();
        let n = points.len();
        let lengths = match edge_lengths(points, n - 1) {
            Ok(lengths) => lengths,
            Err(e) => {
                return Err(e);
            },
        };
        let mut curve_sizes: Vec<T> = Vec::with_capacity(n - 2);
        let mut j: usize = 0;
        while j + 2 < n
            invariant
                n == points@.len(),
                lengths@.len() == n - 1,
                j + 2 <= n,
                forall|i: int| 0 <= i < n - 1 ==> lengths@[i] == spec_edge_length(points@, i),
                curve_sizes@ == spec_polyline_fillets(points@, size).take(j as int),
            decreases n - j,
        {
            curve_sizes.push(fillet(lengths[j + 1], lengths[j], size));
            assert(curve_sizes@ =~= spec_polyline_fillets(points@, size).take(j + 1));
            j += 1;
        }
        assert(curve_sizes@ =~= spec_polyline_fillets(points@, size));
        Ok(Polyarc { polyline: self.clone(), curve_sizes })
    }
}

impl<T: Value> Curved<T> for Polygon<T> {
    type CurvedResult = CurvyResult<Polycurve<T>>;

    /// The polygon with each corner rounded by `size`, or by half the
    /// shorter of the corner's two edges where that is less. An error where
    /// two neighbouring points are the same.
    fn curve(&self, size: T) -> (r: CurvyResult<Polycurve<T>>)
        ensures
            edges_defined(self@, self@.len() as int) <==> r is Ok,
            r is Err ==> r->Err_0 == CurvyError::same_points(),
            r is Ok ==> r->Ok_0.spec_polygon() == self@,
            r is Ok ==> r->Ok_0.spec_curve_sizes() == spec_polygon_fillets(self@, size),
    {
        let points = self.points();
        let n = points.len();
        let lengths = match edge_lengths(points, n) {
            Ok(lengths) => lengths,
            Err(e) => {
                return Err(e);
            },
        };
        let mut curve_sizes: Vec<T> = Vec::with_capacity(n);
        curve_sizes.push(fillet(lengths[0], lengths[n - 1], size));
        let mut j: usize = 1;
        while j < n
            invariant
                n == points@.len(),
                lengths@.len() == n,
                1 <= j <= n,
                forall|i: int| 0 <= i < n ==> lengths@[i] == spec_edge_length(points@, i),
                curve_sizes@ =~= spec_polygon_fillets(points@, size).take(j as int),
            decreases n - j,
        {
            curve_sizes.push(fillet(lengths[j], lengths[j - 1], size));
            j += 1;
        }
        assert(curve_sizes@ =~= spec_polygon_fillets(points@, size));
        Ok(Polycurve { polygon: self.clone(), curve_sizes })
    }
}

impl<T: Value> Offset<T> for Polyline<T> {
    type OffsetResult = CurvyResult<Polyline<T>>;

    /// The polyline moved sideways by `offset`: each edge is moved and
    /// joined to those before it, which drops the edges that the move uses
    /// up. Never more points than before. An error where two neighbouring
    /// points are the same, or where two edges that should join do not
    /// cross in one point.
    fn offset(self, offset: T) -> (r: CurvyResult<Polyline<T>>)
        ensures
            r is Ok ==> spec_polyline_offset(self@, offset) == Ok::<Seq<Point<T>>, CurvyError>(
                r->Ok_0@,
            ),
            r is Err ==> spec_polyline_offset(self@, offset) == Err::<Seq<Point<T>>, CurvyError>(
                r->Err_0,
            ),
            r is Ok ==> r->Ok_0@.len() <= self@.len(),
    {
        let points = self.points();
        let n = points.len();
        let lines = match stitch(points, offset, n - 1) {
            Ok(lines) => lines,
            Err(e) => {
                return Err(e);
            },
        };
        let mut new_points = starts(&lines);
        new_points.push(lines[lines.len() - 1].stop());
        Polyline::new(new_points)
    }
}

impl<T: Value> Offset<T> for Polygon<T> {
    type OffsetResult = CurvyResult<Polygon<T>>;

    /// The polygon moved sideways by `offset`: each edge is moved and joined
    /// to those before it, which drops the edges that the move uses up, and
    /// the first is joined to the last. Never more points than before. An
    /// error where two neighbouring points are the same, where two edges
    /// that should join do not cross in one point, or where fewer than
    /// three points are left.
    fn offset(self, offset: T) -> (r: CurvyResult<Polygon<T>>)
        ensures
            r is Ok ==> spec_polygon_offset(self@, offset) == Ok::<Seq<Point<T>>, CurvyError>(
                r->Ok_0@,
            ),
            r is Err ==> spec_polygon_offset(self@, offset) == Err::<Seq<Point<T>>, CurvyError>(
                r->Err_0,
            ),
            r is Ok ==> r->Ok_0@.len() <= self@.len(),
    {
        let points = self.points();
        let n = points.len();
        let mut lines = match stitch(points, offset, n) {
            Ok(lines) => lines,
            Err(e) => {
                return Err(e);
            },
        };
        match close(&mut lines) {
            Ok(()) => {},
            Err(e) => {
                return Err(e);
            },
        }
        Polygon::new(starts(&lines))
    }
}

impl<T: Value> Offset<T> for Polyarc<T> {
    type OffsetResult = CurvyResult<Polyarc<T>>;

    /// A polyline with rounded corners cannot be moved sideways yet: always
    /// the error that says so.
    fn offset(self, offset: T) -> (r: CurvyResult<Polyarc<T>>)
        ensures
            r is Err && r->Err_0 == CurvyError::unsupported(),
    {
        Err(CurvyError { kind: CurvyErrorKind::Unsupported })
    }
}

impl<T: Value> Offset<T> for Polycurve<T> {
    type OffsetResult = CurvyResult<Polycurve<T>>;

    /// A polygon with rounded corners cannot be moved sideways yet: always
    /// the error that says so.
    fn offset(self, offset: T) -> (r: CurvyResult<Polycurve<T>>)
        ensures
            r is Err && r->Err_0 == CurvyError::unsupported(),
    {
        Err(CurvyError { kind: CurvyErrorKind::Unsupported })
    }
}

} // verus!
