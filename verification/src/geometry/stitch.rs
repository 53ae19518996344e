//! The joining of offset edges: each edge of a shape is moved sideways and
//! joined to those before it, and an edge that the move uses up is dropped.
use vstd::prelude::*;
use crate::geometry::base::Value;
use crate::geometry::error::{CurvyError, CurvyErrorKind, CurvyResult};
use crate::geometry::intersects::Intersects;
use crate::geometry::line::Line;
use crate::geometry::offset::Offset;
use crate::geometry::point::Point;

verus! {

/// The point in which `line` is joined to the accepted line `previous`: the
/// one in which the two infinite lines cross, if there is a single one.
pub open spec fn spec_joint<T: Value>(previous: Line<T>, line: Line<T>) -> Option<Point<T>> {
    line.spec_intersect(previous).spec_point()
}

/// Whether `line` uses the accepted line `previous` up: whether the point in
/// which the two are joined lies before `previous` begins.
pub open spec fn spec_consumes<T: Value>(previous: Line<T>, line: Line<T>) -> bool {
    match spec_joint(previous, line) {
        Some(point) => previous.spec_until(point).spec_length().rank() < 0,
        None => false,
    }
}

/// Whether joining `line` on uses up the last accepted line.
pub open spec fn spec_uses_up<T: Value>(accepted: Seq<Line<T>>, line: Line<T>) -> bool {
    accepted.len() > 0 && spec_consumes(accepted.last(), line)
}

/// The accepted lines of an offset shape after one more line is joined on.
///
/// The line is crossed with the last accepted one, which is cut to end in
/// the crossing point. Where that leaves it a negative length, the offset
/// has used it up: it is dropped, and the line is joined to the one before.
/// Otherwise the line is cut to begin in the crossing point and accepted. A
/// line with no other to join stands as it is. Two lines that do not cross
/// in one point cannot be joined.
pub open spec fn spec_join<T: Value>(accepted: Seq<Line<T>>, line: Line<T>) -> CurvyResult<
    Seq<Line<T>>,
>
    decreases accepted.len(),
{
    if accepted.len() == 0 {
        Ok(seq![line])
    } else {
        match spec_joint(accepted.last(), line) {
            None => Err(CurvyError::unjoinable()),
            Some(point) => if spec_consumes(accepted.last(), line) {
                spec_join(accepted.drop_last(), line)
            } else {
                Ok(accepted.push(line.spec_herefrom(point)))
            },
        }
    }
}

/// Joining adds at most one line, and leaves at least one.
pub proof fn lemma_join_len<T: Value>(accepted: Seq<Line<T>>, line: Line<T>)
    ensures
        spec_join(accepted, line) is Ok ==> 1 <= spec_join(accepted, line)->Ok_0.len()
            <= accepted.len() + 1,
    decreases accepted.len(),
{
    if accepted.len() > 0 {
        lemma_join_len(accepted.drop_last(), line);
    }
}

/// A line that is joined on adds one to the accepted lines exactly where it
/// uses none of them up; where it does, it adds none.
pub proof fn law_join_count<T: Value>(accepted: Seq<Line<T>>, line: Line<T>)
    requires
        spec_join(accepted, line) is Ok,
    ensures
        !spec_uses_up(accepted, line) ==> spec_join(accepted, line)->Ok_0.len() == accepted.len()
            + 1,
        spec_uses_up(accepted, line) ==> spec_join(accepted, line)->Ok_0.len() <= accepted.len(),
{
    if spec_uses_up(accepted, line) {
        lemma_join_len(accepted.drop_last(), line);
    }
}

/// What joining a line on leaves: the first `kept` of the accepted lines as
/// they were, and the line after them. The line uses up every accepted line
/// that is dropped, and not the last one that is kept, in whose crossing
/// point it is cut to begin. Where none is kept the line stands uncut.
pub proof fn law_join_keeps_the_first<T: Value>(accepted: Seq<Line<T>>, line: Line<T>) -> (kept:
    int)
    requires
        spec_join(accepted, line) is Ok,
    ensures
        0 <= kept <= accepted.len(),
        spec_join(accepted, line)->Ok_0.len() == kept + 1,
        spec_join(accepted, line)->Ok_0.take(kept) == accepted.take(kept),
        forall|j: int| kept <= j < accepted.len() ==> spec_consumes(#[trigger] accepted[j], line),
        kept == 0 ==> spec_join(accepted, line)->Ok_0[0] == line,
        kept > 0 ==> !spec_consumes(accepted[kept - 1], line) && spec_joint(
            accepted[kept - 1],
            line,
        ) is Some && spec_join(accepted, line)->Ok_0[kept] == line.spec_herefrom(
            spec_joint(accepted[kept - 1], line)->Some_0,
        ),
    decreases accepted.len(),
{
    if accepted.len() == 0 {
        assert(seq![line].take(0) =~= accepted.take(0));
        0
    } else if spec_consumes(accepted.last(), line) {
        let kept = law_join_keeps_the_first(accepted.drop_last(), line);
        assert(accepted.drop_last().take(kept) =~= accepted.take(kept));
        assert forall|j: int| kept <= j < accepted.len() implies spec_consumes(
            #[trigger] accepted[j],
            line,
        ) by {
            if j < accepted.len() - 1 {
                assert(accepted[j] == accepted.drop_last()[j]);
            }
        }
        kept
    } else {
        let joined = accepted.push(line.spec_herefrom(spec_joint(accepted.last(), line)->Some_0));
        assert(joined.take(accepted.len() as int) =~= accepted);
        assert(accepted.take(accepted.len() as int) =~= accepted);
        accepted.len() as int
    }
}

/// Joining a line on fails only for want of a crossing point: the line uses
/// up every accepted line after the one at `stuck`, with which it has no
/// single point in common.
pub proof fn law_join_fails_on_lines_that_do_not_cross<T: Value>(
    accepted: Seq<Line<T>>,
    line: Line<T>,
) -> (stuck: int)
    requires
        spec_join(accepted, line) is Err,
    ensures
        spec_join(accepted, line)->Err_0 == CurvyError::unjoinable(),
        0 <= stuck < accepted.len(),
        spec_joint(accepted[stuck], line).is_none(),
        forall|j: int| stuck < j < accepted.len() ==> spec_consumes(#[trigger] accepted[j], line),
    decreases accepted.len(),
{
    if spec_joint(accepted.last(), line).is_none() {
        accepted.len() - 1
    } else {
        let stuck = law_join_fails_on_lines_that_do_not_cross(accepted.drop_last(), line);
        assert(accepted[stuck] == accepted.drop_last()[stuck]);
        assert forall|j: int| stuck < j < accepted.len() implies spec_consumes(
            #[trigger] accepted[j],
            line,
        ) by {
            if j < accepted.len() - 1 {
                assert(accepted[j] == accepted.drop_last()[j]);
            }
        }
        stuck
    }
}

/// Joins one more line on to the accepted lines of an offset shape.
pub fn join<T: Value>(accepted: &mut Vec<Line<T>>, line: Line<T>) -> (r: Result<(), CurvyError>)
    ensures
        r is Ok ==> spec_join(old(accepted)@, line) == Ok::<Seq<Line<T>>, CurvyError>(
            final(accepted)@,
        ),
        r is Err ==> spec_join(old(accepted)@, line) == Err::<Seq<Line<T>>, CurvyError>(
            r->Err_0,
        ),
        r is Ok ==> 1 <= final(accepted)@.len() <= old(accepted)@.len() + 1,
{
    let ghost before = accepted@;
    proof {
        T::constants_in_order();
        lemma_join_len(before, line);
    }
    let zero = T::zero();
    loop
        invariant
            before == old(accepted)@,
            spec_join(accepted@, line) == spec_join(before, line),
            accepted@.len() <= before.len(),
            zero.rank() == 0,
        decreases accepted.len(),
    {
        let n = accepted.len();
        if n == 0 {
            accepted.push(line);
            assert(accepted@ =~= seq![line]);
            return Ok(());
        }
        let prev = accepted[n - 1];
        let point = match line.intersect(&prev).point() {
            Some(point) => point,
            None => {
                return Err(CurvyError { kind: CurvyErrorKind::Unjoinable });
            },
        };
        if prev.until(point).length().less(zero) {
            accepted.pop();
            continue ;
        }
        accepted.push(line.herefrom(point));
        return Ok(());
    }
}

/// The edge of a chain that begins in its point `i`: the segment from there
/// to the next point, or to the first point from the last.
pub open spec fn spec_edge<T: Value>(points: Seq<Point<T>>, i: int) -> CurvyResult<Line<T>> {
    Line::spec_try_new(
        points[i],
        if i + 1 == points.len() {
            points[0]
        } else {
            points[i + 1]
        },
    )
}

/// The edge of a chain that begins in its point `i`. An error where it would
/// end in the same point.
pub fn edge<T: Value>(points: &Vec<Point<T>>, i: usize) -> (r: CurvyResult<Line<T>>)
    requires
        i < points.len(),
    ensures
        r == spec_edge(points@, i as int),
{
    let stop = if i + 1 == points.len() {
        points[0]
    } else {
        points[i + 1]
    };
    Line::new(points[i], stop)
}

/// The accepted lines after the first `count` edges of a chain were moved
/// sideways by `offset` and joined, one after the other.
pub open spec fn spec_stitch<T: Value>(points: Seq<Point<T>>, offset: T, count: int)
    -> CurvyResult<Seq<Line<T>>>
    decreases count,
{
    if count <= 0 {
        Ok(Seq::empty())
    } else {
        match spec_stitch(points, offset, count - 1) {
            Err(e) => Err(e),
            Ok(accepted) => match spec_edge(points, count - 1) {
                Err(e) => Err(e),
                Ok(line) => spec_join(accepted, line.spec_offset(offset)),
            },
        }
    }
}

/// An error among the first edges is the error of the whole chain.
pub proof fn lemma_stitch_error_stays<T: Value>(
    points: Seq<Point<T>>,
    offset: T,
    count: int,
    more: int,
)
    requires
        0 <= count <= more,
        spec_stitch(points, offset, count) is Err,
    ensures
        spec_stitch(points, offset, more) == spec_stitch(points, offset, count),
    decreases more - count,
{
    if count < more {
        lemma_stitch_error_stays(points, offset, count, more - 1);
    }
}

/// Of `count` edges at most `count` lines are accepted, and at least one
/// where there is an edge.
pub proof fn lemma_stitch_len<T: Value>(points: Seq<Point<T>>, offset: T, count: int)
    requires
        0 <= count,
    ensures
        spec_stitch(points, offset, count) is Ok ==> spec_stitch(points, offset, count)->Ok_0.len()
            <= count,
        spec_stitch(points, offset, count) is Ok && count > 0 ==> spec_stitch(
            points,
            offset,
            count,
        )->Ok_0.len() >= 1,
    decreases count,
{
    if count > 0 {
        lemma_stitch_len(points, offset, count - 1);
        if spec_stitch(points, offset, count - 1) is Ok && spec_edge(points, count - 1) is Ok {
            lemma_join_len(
                spec_stitch(points, offset, count - 1)->Ok_0,
                spec_edge(points, count - 1)->Ok_0.spec_offset(offset),
            );
        }
    }
}

/// Whether one of the first `count` edges of a chain, moved sideways by
/// `offset`, uses up an edge that was accepted before it.
pub open spec fn spec_edge_used_up<T: Value>(points: Seq<Point<T>>, offset: T, count: int) -> bool
    decreases count,
{
    count > 0 && (spec_edge_used_up(points, offset, count - 1) || (spec_stitch(
        points,
        offset,
        count - 1,
    ) is Ok && spec_edge(points, count - 1) is Ok && spec_uses_up(
        spec_stitch(points, offset, count - 1)->Ok_0,
        spec_edge(points, count - 1)->Ok_0.spec_offset(offset),
    )))
}

/// Of `count` edges all are accepted exactly where none is used up; where
/// one is, fewer are.
pub proof fn law_stitch_count<T: Value>(points: Seq<Point<T>>, offset: T, count: int)
    requires
        0 <= count,
        spec_stitch(points, offset, count) is Ok,
    ensures
        !spec_edge_used_up(points, offset, count) <==> spec_stitch(points, offset, count)->Ok_0.len()
            == count,
        spec_edge_used_up(points, offset, count) <==> spec_stitch(points, offset, count)->Ok_0.len()
            < count,
    decreases count,
{
    if count > 0 {
        law_stitch_count(points, offset, count - 1);
        law_join_count(
            spec_stitch(points, offset, count - 1)->Ok_0,
            spec_edge(points, count - 1)->Ok_0.spec_offset(offset),
        );
    }
}

/// The edge of a chain that begins in its point `i`, moved sideways by
/// `offset`.
pub open spec fn spec_moved_edge<T: Value>(points: Seq<Point<T>>, offset: T, i: int) -> Line<T> {
    spec_edge(points, i)->Ok_0.spec_offset(offset)
}

/// Where no edge is used up, the accepted lines are the moved edges in
/// their order: the first as it is, each other one cut to begin in the point
/// in which it crosses the accepted line before it.
pub proof fn law_stitch_joins_neighbours<T: Value>(
    points: Seq<Point<T>>,
    offset: T,
    count: int,
    i: int,
)
    requires
        0 <= i < count,
        spec_stitch(points, offset, count) is Ok,
        !spec_edge_used_up(points, offset, count),
    ensures
        spec_stitch(points, offset, count)->Ok_0.len() == count,
        spec_edge(points, i) is Ok,
        i == 0 ==> spec_stitch(points, offset, count)->Ok_0[0] == spec_moved_edge(points, offset, 0),
        i > 0 ==> spec_joint(
            spec_stitch(points, offset, count)->Ok_0[i - 1],
            spec_moved_edge(points, offset, i),
        ) is Some && spec_stitch(points, offset, count)->Ok_0[i] == spec_moved_edge(
            points,
            offset,
            i,
        ).spec_herefrom(
            spec_joint(
                spec_stitch(points, offset, count)->Ok_0[i - 1],
                spec_moved_edge(points, offset, i),
            )->Some_0,
        ),
    decreases count,
{
    let accepted = spec_stitch(points, offset, count - 1)->Ok_0;
    law_stitch_count(points, offset, count);
    law_stitch_count(points, offset, count - 1);
    if i < count - 1 {
        law_stitch_joins_neighbours(points, offset, count - 1, i);
    }
}

/// Moves the first `count` edges of a chain sideways by `offset` and joins
/// them, one after the other.
pub fn stitch<T: Value>(points: &Vec<Point<T>>, offset: T, count: usize) -> (r: CurvyResult<
    Vec<Line<T>>,
>)
    requires
        count <= points.len(),
    ensures
        r is Ok ==> spec_stitch(points@, offset, count as int) == Ok::<Seq<Line<T>>, CurvyError>(
            r->Ok_0@,
        ),
        r is Err ==> spec_stitch(points@, offset, count as int) == Err::<
            Seq<Line<T>>,
            CurvyError,
        >(r->Err_0),
        r is Ok ==> r->Ok_0@.len() <= count,
        r is Ok && count > 0 ==> r->Ok_0@.len() >= 1,
{
    let mut accepted: Vec<Line<T>> = Vec::with_capacity(count);
    let mut i: usize = 0;
    while i < count
        invariant
            i <= count <= points.len(),
            spec_stitch(points@, offset, i as int) == Ok::<Seq<Line<T>>, CurvyError>(accepted@),
        decreases count - i,
    {
        let line = match edge(points, i) {
            Ok(line) => line,
            Err(e) => {
                proof {
                    lemma_stitch_error_stays(points@, offset, i + 1, count as int);
                }
                return Err(e);
            },
        };
        match join(&mut accepted, line.offset(offset)) {
            Ok(()) => {},
            Err(e) => {
                proof {
                    lemma_stitch_error_stays(points@, offset, i + 1, count as int);
                }
                return Err(e);
            },
        }
        i += 1;
    }
    proof {
        lemma_stitch_len(points@, offset, count as int);
    }
    Ok(accepted)
}

/// Where no edge of a polyline is used up, each inner point of its offset is
/// the beginning of the moved edge that begins in the point before the
/// offset, cut in the point in which it crosses the accepted line before it;
/// the first and the last point are the beginning of the first moved edge
/// and the end of the last.
pub proof fn law_polyline_offset_corners<T: Value>(points: Seq<Point<T>>, offset: T, i: int)
    requires
        points.len() >= 2,
        0 <= i < points.len(),
        spec_polyline_offset(points, offset) is Ok,
        !spec_edge_used_up(points, offset, points.len() - 1),
    ensures
        spec_polyline_offset(points, offset)->Ok_0.len() == points.len(),
        i == 0 ==> spec_polyline_offset(points, offset)->Ok_0[0] == spec_moved_edge(
            points,
            offset,
            0,
        ).spec_start(),
        0 < i < points.len() - 1 ==> spec_joint(
            spec_stitch(points, offset, points.len() - 1)->Ok_0[i - 1],
            spec_moved_edge(points, offset, i),
        ) is Some && spec_polyline_offset(points, offset)->Ok_0[i] == spec_moved_edge(
            points,
            offset,
            i,
        ).spec_herefrom(
            spec_joint(
                spec_stitch(points, offset, points.len() - 1)->Ok_0[i - 1],
                spec_moved_edge(points, offset, i),
            )->Some_0,
        ).spec_start(),
        i == points.len() - 1 ==> spec_polyline_offset(points, offset)->Ok_0[i] == spec_stitch(
            points,
            offset,
            points.len() - 1,
        )->Ok_0.last().spec_stop(),
{
    let count = points.len() - 1;
    law_stitch_count(points, offset, count);
    if i < count {
        law_stitch_joins_neighbours(points, offset, count, i);
    }
}

/// The accepted lines of a polygon, closed: the first line is joined on once
/// more, to the last of the others, and then takes its place at the head
/// again. Where it uses up all the others it stands alone, as it was.
pub open spec fn spec_close<T: Value>(lines: Seq<Line<T>>) -> CurvyResult<Seq<Line<T>>> {
    match spec_join(lines.skip(1), lines[0]) {
        Err(e) => Err(e),
        Ok(joined) => Ok(seq![joined.last()] + joined.drop_last()),
    }
}

/// Closes the accepted lines of a polygon.
pub fn close<T: Value>(lines: &mut Vec<Line<T>>) -> (r: Result<(), CurvyError>)
    requires
        old(lines)@.len() >= 1,
    ensures
        r is Ok ==> spec_close(old(lines)@) == Ok::<Seq<Line<T>>, CurvyError>(final(lines)@),
        r is Err ==> spec_close(old(lines)@) == Err::<Seq<Line<T>>, CurvyError>(r->Err_0),
        r is Ok ==> 1 <= final(lines)@.len() <= old(lines)@.len(),
{
    let first = lines.remove(0);
    assert(lines@ =~= old(lines)@.skip(1));
    match join(lines, first) {
        Ok(()) => {},
        Err(e) => {
            return Err(e);
        },
    }
    let ghost joined = lines@;
    match lines.pop() {
        Some(closing) => {
            lines.insert(0, closing);
            assert(lines@ =~= seq![joined.last()] + joined.drop_last());
        },
        None => {},
    }
    Ok(())
}

/// The points in which the lines begin.
pub open spec fn spec_starts<T: Value>(lines: Seq<Line<T>>) -> Seq<Point<T>> {
    Seq::new(lines.len(), |i: int| lines[i].spec_start())
}

/// The points in which the lines begin.
pub fn starts<T: Value>(lines: &Vec<Line<T>>) -> (r: Vec<Point<T>>)
    ensures
        r@ == spec_starts(lines@),
{
    let mut points: Vec<Point<T>> = Vec::with_capacity(lines.len());
    let mut i: usize = 0;
    while i < lines.len()
        invariant
            i <= lines.len(),
            points@ == spec_starts(lines@.take(i as int)),
        decreases lines.len() - i,
    {
        points.push(lines[i].start());
        assert(points@ =~= spec_starts(lines@.take(i + 1)));
        i += 1;
    }
    assert(lines@.take(lines.len() as int) =~= lines@);
    points
}

/// The points of a polyline moved sideways by `offset`: those in which the
/// accepted lines of its edges begin, and the one in which the last ends.
pub open spec fn spec_polyline_offset<T: Value>(points: Seq<Point<T>>, offset: T) -> CurvyResult<
    Seq<Point<T>>,
> {
    match spec_stitch(points, offset, points.len() - 1) {
        Err(e) => Err(e),
        Ok(lines) => Ok(spec_starts(lines).push(lines.last().spec_stop())),
    }
}

/// A polyline keeps the number of its points under an offset exactly where
/// no edge is used up; where one is, it is left with fewer.
pub proof fn law_polyline_offset_count<T: Value>(points: Seq<Point<T>>, offset: T)
    requires
        points.len() >= 2,
        spec_polyline_offset(points, offset) is Ok,
    ensures
        !spec_edge_used_up(points, offset, points.len() - 1) <==> spec_polyline_offset(
            points,
            offset,
        )->Ok_0.len() == points.len(),
        spec_edge_used_up(points, offset, points.len() - 1) <==> spec_polyline_offset(
            points,
            offset,
        )->Ok_0.len() < points.len(),
{
    law_stitch_count(points, offset, points.len() - 1);
}

/// The points of a polygon moved sideways by `offset`: those in which the
/// accepted lines of its edges begin, once they are closed. An error where
/// fewer than three are left.
pub open spec fn spec_polygon_offset<T: Value>(points: Seq<Point<T>>, offset: T) -> CurvyResult<
    Seq<Point<T>>,
> {
    match spec_stitch(points, offset, points.len() as int) {
        Err(e) => Err(e),
        Ok(lines) => match spec_close(lines) {
            Err(e) => Err(e),
            Ok(closed) => if closed.len() < 3 {
                Err(CurvyError::collapsed())
            } else {
                Ok(spec_starts(closed))
            },
        },
    }
}

/// Whether the offset of a polygon uses up an edge: one of its edges uses up
/// an edge accepted before it, or the first edge, joined on once more, uses
/// up the last.
pub open spec fn spec_ring_used_up<T: Value>(points: Seq<Point<T>>, offset: T) -> bool {
    spec_edge_used_up(points, offset, points.len() as int) || (spec_stitch(
        points,
        offset,
        points.len() as int,
    ) is Ok && spec_uses_up(
        spec_stitch(points, offset, points.len() as int)->Ok_0.skip(1),
        spec_stitch(points, offset, points.len() as int)->Ok_0[0],
    ))
}

/// Where no edge of a polygon is used up, each point of its offset is the
/// beginning of the moved edge that begins in that point before the offset,
/// cut in the point in which it crosses the moved edge before it: for the
/// first point that is the last edge, which closes the polygon.
pub proof fn law_polygon_offset_corners<T: Value>(points: Seq<Point<T>>, offset: T, i: int)
    requires
        points.len() >= 3,
        0 <= i < points.len(),
        spec_polygon_offset(points, offset) is Ok,
        !spec_ring_used_up(points, offset),
    ensures
        spec_polygon_offset(points, offset)->Ok_0.len() == points.len(),
        i == 0 ==> spec_joint(
            spec_stitch(points, offset, points.len() as int)->Ok_0.last(),
            spec_moved_edge(points, offset, 0),
        ) is Some && spec_polygon_offset(points, offset)->Ok_0[0] == spec_moved_edge(
            points,
            offset,
            0,
        ).spec_herefrom(
            spec_joint(
                spec_stitch(points, offset, points.len() as int)->Ok_0.last(),
                spec_moved_edge(points, offset, 0),
            )->Some_0,
        ).spec_start(),
        i > 0 ==> spec_joint(
            spec_stitch(points, offset, points.len() as int)->Ok_0[i - 1],
            spec_moved_edge(points, offset, i),
        ) is Some && spec_polygon_offset(points, offset)->Ok_0[i] == spec_moved_edge(
            points,
            offset,
            i,
        ).spec_herefrom(
            spec_joint(
                spec_stitch(points, offset, points.len() as int)->Ok_0[i - 1],
                spec_moved_edge(points, offset, i),
            )->Some_0,
        ).spec_start(),
{
    let count = points.len() as int;
    let lines = spec_stitch(points, offset, count)->Ok_0;
    let joined = spec_join(lines.skip(1), lines[0])->Ok_0;
    let closed = spec_close(lines)->Ok_0;
    law_polygon_offset_count(points, offset);
    law_stitch_count(points, offset, count);
    law_stitch_joins_neighbours(points, offset, count, i);
    law_stitch_joins_neighbours(points, offset, count, 0);
    assert(lines.skip(1).last() == lines.last());
    assert(joined == lines.skip(1).push(
        lines[0].spec_herefrom(spec_joint(lines.last(), lines[0])->Some_0),
    ));
    assert(closed == seq![joined.last()] + joined.drop_last());
    assert(joined.drop_last() =~= lines.skip(1));
    assert(spec_polygon_offset(points, offset)->Ok_0 == spec_starts(closed));
    if i > 0 {
        assert(closed[i] == lines[i]);
    }
}

/// A polygon keeps the number of its points under an offset exactly where
/// no edge is used up; where one is, it is left with fewer.
pub proof fn law_polygon_offset_count<T: Value>(points: Seq<Point<T>>, offset: T)
    requires
        points.len() >= 3,
        spec_polygon_offset(points, offset) is Ok,
    ensures
        !spec_ring_used_up(points, offset) <==> spec_polygon_offset(points, offset)->Ok_0.len()
            == points.len(),
        spec_ring_used_up(points, offset) <==> spec_polygon_offset(points, offset)->Ok_0.len()
            < points.len(),
{
    let lines = spec_stitch(points, offset, points.len() as int)->Ok_0;
    let joined = spec_join(lines.skip(1), lines[0])->Ok_0;
    let closed = spec_close(lines)->Ok_0;
    law_stitch_count(points, offset, points.len() as int);
    lemma_stitch_len(points, offset, points.len() as int);
    law_join_count(lines.skip(1), lines[0]);
    lemma_join_len(lines.skip(1), lines[0]);
    assert(spec_polygon_offset(points, offset)->Ok_0 == spec_starts(closed));
    assert(closed.len() == joined.len());
}

} // verus!
