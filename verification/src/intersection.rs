//! Where a line crosses the border of a rectangle.

use vstd::prelude::*;
use crate::common::{U16Point, min_int, max_int};
use crate::line::{Line, abs_diff, round_offset, lemma_round_offset_bounds, minor_at, distance};
use crate::rect::Rect;

verus! {

/// The point at which `line` crosses the grid row `row` between the left
/// and the right edge of `rect`, if it does. A line that runs along the rows
/// crosses none of them. The test for the two edges is made on the exact
/// crossing; the point is the nearest cell to it.
pub open spec fn row_crossing(rect: Rect, line: Line, row: int) -> Option<U16Point> {
    let d = abs_diff(line.end.1 as int, line.start.1 as int);
    let t = abs_diff(row, line.start.1 as int);
    if d != 0 && min_int(line.start.1 as int, line.end.1 as int) <= row <= max_int(
        line.start.1 as int,
        line.end.1 as int,
    ) && (rect.start.0 - line.start.0) * d <= line.dx() * t <= (rect.right() - line.start.0) * d {
        Some(((line.start.0 + round_offset(line.dx(), t, d)) as u16, row as u16))
    } else {
        None
    }
}

/// The point at which `line` crosses the grid column `column` between the
/// top and the bottom edge of `rect`, if it does. A line that runs along the
/// columns crosses none of them.
pub open spec fn column_crossing(rect: Rect, line: Line, column: int) -> Option<U16Point> {
    let d = abs_diff(line.end.0 as int, line.start.0 as int);
    let t = abs_diff(column, line.start.0 as int);
    if d != 0 && min_int(line.start.0 as int, line.end.0 as int) <= column <= max_int(
        line.start.0 as int,
        line.end.0 as int,
    ) && (rect.start.1 - line.start.1) * d <= line.dy() * t <= (rect.bottom() - line.start.1) * d {
        Some((column as u16, (line.start.1 + round_offset(line.dy(), t, d)) as u16))
    } else {
        None
    }
}

/// No point or one, as a sequence.
pub open spec fn as_seq(p: Option<U16Point>) -> Seq<U16Point> {
    match p {
        Some(q) => seq![q],
        None => Seq::empty(),
    }
}

/// The crossings of `line` with the four edges of `rect`: top, bottom, left,
/// right, in that order, each where there is one. A crossing at a corner
/// comes once for each of its two edges.
pub open spec fn spec_intersection_of_rect_and_line(rect: Rect, line: Line) -> Seq<U16Point> {
    as_seq(row_crossing(rect, line, rect.start.1 as int)) + as_seq(
        row_crossing(rect, line, rect.bottom()),
    ) + as_seq(column_crossing(rect, line, rect.start.0 as int)) + as_seq(
        column_crossing(rect, line, rect.right()),
    )
}

/// The first of the crossings of `line` with the edges of `rect`, where there
/// is one.
pub open spec fn spec_anchored_crossing(rect: Rect, line: Line) -> Option<U16Point> {
    if spec_intersection_of_rect_and_line(rect, line).len() > 0 {
        Some(spec_intersection_of_rect_and_line(rect, line)[0])
    } else {
        None
    }
}

/// A crossing with a row lies in that row, between the two edges of the
/// rectangle and in the bounding box of the line.
pub proof fn lemma_row_crossing_placed(rect: Rect, line: Line, row: int)
    requires
        row_crossing(rect, line, row).is_some(),
    ensures
        row_crossing(rect, line, row).unwrap().1 == row,
        rect.start.0 <= row_crossing(rect, line, row).unwrap().0 <= rect.right(),
        line.in_bounding_box(row_crossing(rect, line, row).unwrap()),
        row_crossing(rect, line, row).unwrap().0 == line.start.0 + round_offset(
            line.dx(),
            abs_diff(row, line.start.1 as int),
            abs_diff(line.end.1 as int, line.start.1 as int),
        ),
{
    let d = abs_diff(line.end.1 as int, line.start.1 as int);
    let t = abs_diff(row, line.start.1 as int);
    lemma_round_offset_bounds(line.dx(), t, d);
    lemma_crossing_between(line.dx(), t, d, rect.start.0 - line.start.0, rect.right() - line.start.0);
}

/// A crossing with a column lies in that column, between the two edges of
/// the rectangle and in the bounding box of the line.
pub proof fn lemma_column_crossing_placed(rect: Rect, line: Line, column: int)
    requires
        column_crossing(rect, line, column).is_some(),
    ensures
        column_crossing(rect, line, column).unwrap().0 == column,
        rect.start.1 <= column_crossing(rect, line, column).unwrap().1 <= rect.bottom(),
        line.in_bounding_box(column_crossing(rect, line, column).unwrap()),
        column_crossing(rect, line, column).unwrap().1 == line.start.1 + round_offset(
            line.dy(),
            abs_diff(column, line.start.0 as int),
            abs_diff(line.end.0 as int, line.start.0 as int),
        ),
{
    let d = abs_diff(line.end.0 as int, line.start.0 as int);
    let t = abs_diff(column, line.start.0 as int);
    lemma_round_offset_bounds(line.dy(), t, d);
    lemma_crossing_between(line.dy(), t, d, rect.start.1 - line.start.1, rect.bottom() - line.start.1);
}

/// Rounding keeps a ratio between two integers that it lies between.
proof fn lemma_crossing_between(delta: int, t: int, d: int, lo: int, hi: int)
    requires
        d > 0,
        t >= 0,
        lo * d <= delta * t <= hi * d,
    ensures
        lo <= round_offset(delta, t, d) <= hi,
{
    crate::line::lemma_round_offset_nearest(delta, t, d);
    let r = round_offset(delta, t, d);
    assert(lo <= r <= hi) by (nonlinear_arith)
        requires
            2 * d * r - d <= 2 * delta * t < 2 * d * r + d,
            lo * d <= delta * t <= hi * d,
            d > 0,
    ;
}

/// Whether a line that runs from `a0` to `a1` along one axis and from `b0`
/// to `b1` along the other crosses the coordinate `c` of the first axis
/// between `lo` and `hi` on the second, and if so, the cell on the second
/// axis that is nearest to the crossing.
fn crossing_coordinate(a0: u16, a1: u16, b0: u16, b1: u16, lo: u16, hi: u32, c: u32) -> (r: Option<
    u16,
>)
    requires
        hi <= 2 * 65535,
        c <= 2 * 65535,
    ensures
        r.is_some() <==> (abs_diff(a1 as int, a0 as int) != 0 && min_int(a0 as int, a1 as int) <= c
            <= max_int(a0 as int, a1 as int) && (lo - b0) * abs_diff(a1 as int, a0 as int) <= (b1
            - b0) * abs_diff(c as int, a0 as int) <= (hi - b0) * abs_diff(a1 as int, a0 as int)),
        r.is_some() ==> r.unwrap() as int == b0 + round_offset(
            b1 - b0,
            abs_diff(c as int, a0 as int),
            abs_diff(a1 as int, a0 as int),
        ),
        r.is_some() ==> c <= u16::MAX,
{
    let d: u16 = distance(a1, a0);
    if d == 0 {
        return None;
    }
    let a_min: u16 = if a0 <= a1 {
        a0
    } else {
        a1
    };
    let a_max: u16 = if a0 <= a1 {
        a1
    } else {
        a0
    };
    if c < a_min as u32 || c > a_max as u32 {
        return None;
    }
    let t: u16 = distance(c as u16, a0);
    let delta: i64 = b1 as i64 - b0 as i64;
    let below: i64 = lo as i64 - b0 as i64;
    let above: i64 = hi as i64 - b0 as i64;
    assert(-65535 * 65535 <= below * d <= 65535 * 65535) by (nonlinear_arith)
        requires
            -65535 <= below <= 65535,
            0 <= d <= 65535,
    ;
    assert(-65535 * 65535 <= delta * t <= 65535 * 65535) by (nonlinear_arith)
        requires
            -65535 <= delta <= 65535,
            0 <= t <= 65535,
    ;
    assert(-65535 * 65535 <= above * d <= 2 * 65535 * 65535) by (nonlinear_arith)
        requires
            -65535 <= above <= 2 * 65535,
            0 <= d <= 65535,
    ;
    let low: i64 = below * (d as i64);
    let at: i64 = delta * (t as i64);
    let high: i64 = above * (d as i64);
    if low <= at && at <= high {
        Some(minor_at(b0, b1, t, d))
    } else {
        None
    }
}

/// The points at which `line` crosses the edges of `rect`: for the top, the
/// bottom, the left and the right edge in turn, the crossing with that edge
/// where the line reaches the edge's row or column within the edge. Up to
/// four points; a corner may come twice.
pub fn intersection_of_rect_and_line(rect: &Rect, line: &Line) -> (out: Vec<U16Point>)
    ensures
        out@ == spec_intersection_of_rect_and_line(*rect, *line),
        out@.len() <= 4,
        forall|i: int| 0 <= i < out@.len() ==> line.in_bounding_box(#[trigger] out@[i]),
{
    let mut out: Vec<U16Point> = Vec::new();
    let right: u32 = rect.start.0 as u32 + rect.size.0 as u32;
    let bottom: u32 = rect.start.1 as u32 + rect.size.1 as u32;
    let ghost top_p = row_crossing(*rect, *line, rect.start.1 as int);
    let ghost bottom_p = row_crossing(*rect, *line, rect.bottom());
    let ghost left_p = column_crossing(*rect, *line, rect.start.0 as int);
    let ghost right_p = column_crossing(*rect, *line, rect.right());
    proof {
        if top_p.is_some() {
            lemma_row_crossing_placed(*rect, *line, rect.start.1 as int);
        }
        if bottom_p.is_some() {
            lemma_row_crossing_placed(*rect, *line, rect.bottom());
        }
        if left_p.is_some() {
            lemma_column_crossing_placed(*rect, *line, rect.start.0 as int);
        }
        if right_p.is_some() {
            lemma_column_crossing_placed(*rect, *line, rect.right());
        }
    }
    match crossing_coordinate(
        line.start.1,
        line.end.1,
        line.start.0,
        line.end.0,
        rect.start.0,
        right,
        rect.start.1 as u32,
    ) {
        Some(x) => {
            out.push((x, rect.start.1));
        },
        None => {},
    }
    assert(out@ =~= as_seq(top_p));
    match crossing_coordinate(
        line.start.1,
        line.end.1,
        line.start.0,
        line.end.0,
        rect.start.0,
        right,
        bottom,
    ) {
        Some(x) => {
            out.push((x, bottom as u16));
        },
        None => {},
    }
    assert(out@ =~= as_seq(top_p) + as_seq(bottom_p));
    match crossing_coordinate(
        line.start.0,
        line.end.0,
        line.start.1,
        line.end.1,
        rect.start.1,
        bottom,
        rect.start.0 as u32,
    ) {
        Some(y) => {
            out.push((rect.start.0, y));
        },
        None => {},
    }
    assert(out@ =~= as_seq(top_p) + as_seq(bottom_p) + as_seq(left_p));
    match crossing_coordinate(
        line.start.0,
        line.end.0,
        line.start.1,
        line.end.1,
        rect.start.1,
        bottom,
        right,
    ) {
        Some(y) => {
            out.push((right as u16, y));
        },
        None => {},
    }
    assert(out@ =~= as_seq(top_p) + as_seq(bottom_p) + as_seq(left_p) + as_seq(right_p));
    out
}

/// The first of the crossings of `line` with the edges of `rect` that lies
/// within the columns and rows that the line itself spans. Every crossing
/// does, so this is the first crossing, where there is one.
pub fn intersection_of_rect_and_anchored_line(rect: &Rect, line: &Line) -> (r: Option<U16Point>)
    ensures
        r == spec_anchored_crossing(*rect, *line),
        r.is_some() ==> line.in_bounding_box(r.unwrap()),
{
    let intersections: Vec<U16Point> = intersection_of_rect_and_line(rect, line);
    let x_range = line.x_range();
    let y_range = line.y_range();
    let mut i: usize = 0;
    while i < intersections.len()
        invariant
            0 <= i <= intersections@.len(),
            forall|j: int| 0 <= j < i ==> !line.in_bounding_box(#[trigger] intersections@[j]),
            intersections@ == spec_intersection_of_rect_and_line(*rect, *line),
            forall|j: int|
                0 <= j < intersections@.len() ==> line.in_bounding_box(
                    #[trigger] intersections@[j],
                ),
            x_range@.start as int == min_int(line.start.0 as int, line.end.0 as int),
            x_range@.end as int == max_int(line.start.0 as int, line.end.0 as int),
            !x_range@.exhausted,
            y_range@.start as int == min_int(line.start.1 as int, line.end.1 as int),
            y_range@.end as int == max_int(line.start.1 as int, line.end.1 as int),
            !y_range@.exhausted,
        decreases intersections.len() - i,
    {
        let p: U16Point = intersections[i];
        if x_range.contains(&p.0) && y_range.contains(&p.1) {
            return Some(p);
        }
        i = i + 1;
    }
    None
}

} // verus!
