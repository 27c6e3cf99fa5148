//! Line segments on the grid and the sequence of cells that draws one.

use vstd::prelude::*;
use crate::common::{U16Point, between_u16_inclusive, min_int, max_int};

verus! {

/// The distance between two integers.
pub open spec fn abs_diff(a: int, b: int) -> int {
    if a >= b {
        a - b
    } else {
        b - a
    }
}

/// `delta * k / d` rounded to the nearest integer, a tie rounded up, for
/// `d > 0` and `k >= 0`.
pub open spec fn round_offset(delta: int, k: int, d: int) -> int {
    if delta >= 0 {
        (2 * delta * k + d) / (2 * d)
    } else {
        -((2 * (-delta) * k + d - 1) / (2 * d))
    }
}

/// `round_offset` is the one integer within a half of `delta * k / d`, the
/// upper one where two are.
pub proof fn lemma_round_offset_nearest(delta: int, k: int, d: int)
    requires
        d > 0,
        k >= 0,
    ensures
        2 * d * round_offset(delta, k, d) - d <= 2 * delta * k < 2 * d * round_offset(delta, k, d)
            + d,
{
    if delta >= 0 {
        let n = 2 * delta * k + d;
        let q = n / (2 * d);
        assert(n == (2 * d) * q + n % (2 * d) && 0 <= n % (2 * d) < 2 * d) by (nonlinear_arith)
            requires
                q == n / (2 * d),
                d > 0,
        ;
    } else {
        let n = 2 * (-delta) * k + d - 1;
        let q = n / (2 * d);
        assert(n == (2 * d) * q + n % (2 * d) && 0 <= n % (2 * d) < 2 * d) by (nonlinear_arith)
            requires
                q == n / (2 * d),
                d > 0,
        ;
        assert(2 * (-delta) * k == -(2 * delta * k)) by (nonlinear_arith);
        assert(2 * d * (-q) == -((2 * d) * q)) by (nonlinear_arith);
    }
}

/// Between its ends `round_offset` stays between zero and `delta`, and it
/// reaches both: zero at step zero, `delta` at step `d`.
pub proof fn lemma_round_offset_bounds(delta: int, k: int, d: int)
    requires
        d > 0,
        0 <= k <= d,
    ensures
        min_int(0, delta) <= round_offset(delta, k, d) <= max_int(0, delta),
        round_offset(delta, 0, d) == 0,
        round_offset(delta, d, d) == delta,
{
    lemma_round_offset_nearest(delta, k, d);
    lemma_round_offset_nearest(delta, 0, d);
    lemma_round_offset_nearest(delta, d, d);
    let r = round_offset(delta, k, d);
    let r0 = round_offset(delta, 0, d);
    let rd = round_offset(delta, d, d);
    assert(r0 == 0) by (nonlinear_arith)
        requires
            2 * d * r0 - d <= 2 * delta * 0 < 2 * d * r0 + d,
            d > 0,
    ;
    assert(rd == delta) by (nonlinear_arith)
        requires
            2 * d * rd - d <= 2 * delta * d < 2 * d * rd + d,
            d > 0,
    ;
    if delta >= 0 {
        assert(0 <= r <= delta) by (nonlinear_arith)
            requires
                2 * d * r - d <= 2 * delta * k < 2 * d * r + d,
                d > 0,
                0 <= k <= d,
                0 <= delta,
        ;
    } else {
        assert(delta <= r <= 0) by (nonlinear_arith)
            requires
                2 * d * r - d <= 2 * delta * k < 2 * d * r + d,
                d > 0,
                0 <= k <= d,
                delta < 0,
        ;
    }
}

/// A segment between two grid points. Neither end has to come before the
/// other.
#[derive(Debug, Clone, Copy)]
pub struct Line {
    pub start: U16Point,
    pub end: U16Point,
}

impl Line {
    /// The signed extent along the columns.
    pub open spec fn dx(&self) -> int {
        self.end.0 - self.start.0
    }

    /// The signed extent along the rows.
    pub open spec fn dy(&self) -> int {
        self.end.1 - self.start.1
    }

    /// Whether the line is stepped along its columns: it is where it spans
    /// at least as many columns as rows.
    pub open spec fn x_major(&self) -> bool {
        abs_diff(self.end.0 as int, self.start.0 as int) >= abs_diff(
            self.end.1 as int,
            self.start.1 as int,
        )
    }

    /// The number of steps from `start` to `end`: the extent along the
    /// major axis.
    pub open spec fn steps(&self) -> int {
        max_int(
            abs_diff(self.end.0 as int, self.start.0 as int),
            abs_diff(self.end.1 as int, self.start.1 as int),
        )
    }

    /// The coordinate reached from `from` after `k` unit steps toward `to`.
    pub open spec fn stepped(from: int, to: int, k: int) -> int {
        if from <= to {
            from + k
        } else {
            from - k
        }
    }

    /// The cell drawn at step `k`, as a pair of integers: one unit further
    /// along the major axis at each step, and on the minor axis the nearest
    /// cell to the line.
    pub open spec fn cell_at(&self, k: int) -> (int, int) {
        if self.steps() == 0 {
            (self.start.0 as int, self.start.1 as int)
        } else if self.x_major() {
            (
                Self::stepped(self.start.0 as int, self.end.0 as int, k),
                self.start.1 + round_offset(self.dy(), k, self.steps()),
            )
        } else {
            (
                self.start.0 + round_offset(self.dx(), k, self.steps()),
                Self::stepped(self.start.1 as int, self.end.1 as int, k),
            )
        }
    }

    /// The cell drawn at step `k` as a grid point.
    pub open spec fn point_at(&self, k: int) -> U16Point {
        (self.cell_at(k).0 as u16, self.cell_at(k).1 as u16)
    }

    /// The cells that draw the line, from `start` to `end`.
    pub open spec fn spec_points(&self) -> Seq<U16Point> {
        Seq::new((self.steps() + 1) as nat, |k: int| self.point_at(k))
    }

    /// Whether `p` lies in the bounding box of the two ends.
    pub open spec fn in_bounding_box(&self, p: U16Point) -> bool {
        min_int(self.start.0 as int, self.end.0 as int) <= p.0 <= max_int(
            self.start.0 as int,
            self.end.0 as int,
        ) && min_int(self.start.1 as int, self.end.1 as int) <= p.1 <= max_int(
            self.start.1 as int,
            self.end.1 as int,
        )
    }

    /// Every cell of the line lies in the bounding box of its ends, so it
    /// is a grid point.
    pub proof fn lemma_cell_in_box(&self, k: int)
        requires
            0 <= k <= self.steps(),
        ensures
            self.cell_at(k) == (self.point_at(k).0 as int, self.point_at(k).1 as int),
            self.in_bounding_box(self.point_at(k)),
    {
        if self.steps() > 0 {
            if self.x_major() {
                lemma_round_offset_bounds(self.dy(), k, self.steps());
            } else {
                lemma_round_offset_bounds(self.dx(), k, self.steps());
            }
        }
    }

    /// The number of steps, and whether they run along the columns.
    fn extent(&self) -> (r: (u16, bool))
        ensures
            r.0 as int == self.steps(),
            r.1 == self.x_major(),
    {
        let adx: u16 = distance(self.start.0, self.end.0);
        let ady: u16 = distance(self.start.1, self.end.1);
        if adx >= ady {
            (adx, true)
        } else {
            (ady, false)
        }
    }

    /// The cell drawn at step `k`.
    pub fn nth_point(&self, k: u16) -> (r: U16Point)
        requires
            k as int <= self.steps(),
        ensures
            r == self.point_at(k as int),
            r == self.spec_points()[k as int],
    {
        let (d, x_major) = self.extent();
        proof {
            self.lemma_cell_in_box(k as int);
        }
        if d == 0 {
            self.start
        } else if x_major {
            let x: u16 = step_toward(self.start.0, self.end.0, k);
            let y: u16 = minor_at(self.start.1, self.end.1, k, d);
            (x, y)
        } else {
            let x: u16 = minor_at(self.start.0, self.end.0, k, d);
            let y: u16 = step_toward(self.start.1, self.end.1, k);
            (x, y)
        }
    }

    /// The columns that the line spans, ends included.
    pub fn x_range(&self) -> (r: core::ops::RangeInclusive<u16>)
        ensures
            r@.start as int == min_int(self.start.0 as int, self.end.0 as int),
            r@.end as int == max_int(self.start.0 as int, self.end.0 as int),
            !r@.exhausted,
    {
        if self.start.0 <= self.end.0 {
            core::ops::RangeInclusive::new(self.start.0, self.end.0)
        } else {
            core::ops::RangeInclusive::new(self.end.0, self.start.0)
        }
    }

    /// The rows that the line spans, ends included.
    pub fn y_range(&self) -> (r: core::ops::RangeInclusive<u16>)
        ensures
            r@.start as int == min_int(self.start.1 as int, self.end.1 as int),
            r@.end as int == max_int(self.start.1 as int, self.end.1 as int),
            !r@.exhausted,
    {
        if self.start.1 <= self.end.1 {
            core::ops::RangeInclusive::new(self.start.1, self.end.1)
        } else {
            core::ops::RangeInclusive::new(self.end.1, self.start.1)
        }
    }

    /// Whether `p` is one of the cells that draw the line.
    pub fn is_point_on(&self, p: U16Point) -> (r: bool)
        ensures
            r == self.spec_points().contains(p),
    {
        let (d, x_major) = self.extent();
        let ghost pts = self.spec_points();
        if d == 0 {
            let r = p.0 == self.start.0 && p.1 == self.start.1;
            proof {
                if r {
                    assert(pts[0] == p);
                }
            }
            return r;
        }
        let (from, to, at) = if x_major {
            (self.start.0, self.end.0, p.0)
        } else {
            (self.start.1, self.end.1, p.1)
        };
        if !between_u16_inclusive(from, to, at) {
            proof {
                assert forall|j: int| 0 <= j < pts.len() implies pts[j] != p by {
                    self.lemma_cell_in_box(j);
                }
            }
            return false;
        }
        let k: u16 = distance(at, from);
        let q: U16Point = self.nth_point(k);
        let r = q.0 == p.0 && q.1 == p.1;
        proof {
            if r {
                assert(pts[k as int] == p);
            } else {
                assert forall|j: int| 0 <= j < pts.len() implies pts[j] != p by {
                    self.lemma_cell_in_box(j);
                }
            }
        }
        r
    }

    /// The cells that draw the line, from `start` to `end`.
    pub fn points(&self) -> (r: Vec<U16Point>)
        ensures
            r@ == self.spec_points(),
    {
        let (d, _) = self.extent();
        let mut out: Vec<U16Point> = Vec::new();
        let mut k: u32 = 0;
        while k <= d as u32
            invariant
                d as int == self.steps(),
                0 <= k <= d + 1,
                out@.len() == k,
                forall|j: int| 0 <= j < k ==> out@[j] == self.point_at(j),
            decreases d + 1 - k,
        {
            let q: U16Point = self.nth_point(k as u16);
            out.push(q);
            k = k + 1;
        }
        assert(out@ =~= self.spec_points());
        out
    }

    /// A producer of the cells that draw the line, one at a time.
    pub fn iter(&self) -> (r: LinePointsIterator)
        ensures
            r.remaining() == self.spec_points(),
    {
        LinePointsIterator::new(self.start, self.end)
    }
}

/// The distance between two coordinates.
pub fn distance(a: u16, b: u16) -> (r: u16)
    ensures
        r as int == abs_diff(a as int, b as int),
        r as int == abs_diff(b as int, a as int),
{
    if a >= b {
        a - b
    } else {
        b - a
    }
}

/// `from` moved `k` cells toward `to`.
fn step_toward(from: u16, to: u16, k: u16) -> (r: u16)
    requires
        k as int <= abs_diff(to as int, from as int),
    ensures
        r as int == Line::stepped(from as int, to as int, k as int),
{
    if from <= to {
        from + k
    } else {
        from - k
    }
}

/// The coordinate `k` parts of `d` along the way from `from` to `to`,
/// rounded to the nearest cell.
pub fn minor_at(from: u16, to: u16, k: u16, d: u16) -> (r: u16)
    requires
        d > 0,
        k <= d,
    ensures
        r as int == from + round_offset(to - from, k as int, d as int),
{
    proof {
        lemma_round_offset_bounds(to - from, k as int, d as int);
    }
    if to >= from {
        let a: u64 = (to - from) as u64;
        assert(2 * a * k <= 2 * 65535 * 65535) by (nonlinear_arith)
            requires
                a <= 65535,
                k <= 65535,
        ;
        let q: u64 = (2 * a * (k as u64) + d as u64) / (2 * (d as u64));
        assert(2 * (to - from) * (k as int) == 2 * a * k) by (nonlinear_arith)
            requires
                a == to - from,
        ;
        (from as u64 + q) as u16
    } else {
        let a: u64 = (from - to) as u64;
        assert(2 * a * k <= 2 * 65535 * 65535) by (nonlinear_arith)
            requires
                a <= 65535,
                k <= 65535,
        ;
        let q: u64 = (2 * a * (k as u64) + d as u64 - 1) / (2 * (d as u64));
        assert(2 * (-(to - from)) * (k as int) == 2 * a * k) by (nonlinear_arith)
            requires
                a == from - to,
        ;
        (from as u64 - q) as u16
    }
}

/// Produces the cells of a line one at a time, from its start to its end,
/// each once.
pub struct LinePointsIterator {
    line: Line,
    step: u32,
}

impl LinePointsIterator {
    #[verifier::type_invariant]
    spec fn within_line(&self) -> bool {
        self.step <= self.line.steps() + 1
    }

    /// The cells that are still to come.
    pub closed spec fn remaining(&self) -> Seq<U16Point> {
        self.line.spec_points().skip(self.step as int)
    }

    pub fn new(lhs: U16Point, rhs: U16Point) -> (r: Self)
        ensures
            r.remaining() == (Line { start: lhs, end: rhs }).spec_points(),
    {
        let r = Self { line: Line { start: lhs, end: rhs }, step: 0 };
        assert(r.line.spec_points().skip(0) =~= r.line.spec_points());
        r
    }

    /// Hands out the next cell, or nothing when the end of the line has
    /// been handed out.
    pub fn next(&mut self) -> (r: Option<U16Point>)
        ensures
            old(self).remaining().len() == 0 ==> r.is_none(),
            old(self).remaining().len() == 0 ==> final(self).remaining() == old(self).remaining(),
            old(self).remaining().len() > 0 ==> r == Some(old(self).remaining()[0]),
            old(self).remaining().len() > 0 ==> final(self).remaining() == old(
                self,
            ).remaining().skip(1),
    {
        proof {
            use_type_invariant(&*self);
        }
        let (d, _) = self.line.extent();
        if self.step > d as u32 {
            None
        } else {
            let p: U16Point = self.line.nth_point(self.step as u16);
            let ghost before = self.remaining();
            self.step = self.step + 1;
            assert(self.remaining() =~= before.skip(1));
            Some(p)
        }
    }
}

/// The cells of a line begin with its start and finish with its end.
pub proof fn lemma_points_reach_both_ends(line: Line)
    ensures
        line.spec_points().len() == line.steps() + 1,
        line.spec_points().first() == line.start,
        line.spec_points().last() == line.end,
{
    let d = line.steps();
    if d > 0 {
        lemma_round_offset_bounds(line.dx(), 0, d);
        lemma_round_offset_bounds(line.dy(), 0, d);
        lemma_round_offset_bounds(line.dx(), d, d);
        lemma_round_offset_bounds(line.dy(), d, d);
    }
}

/// Two cells that follow one another lie exactly one apart along the major
/// axis of the line.
pub proof fn lemma_points_advance_by_one(line: Line, k: int)
    requires
        0 <= k < line.steps(),
    ensures
        line.x_major() ==> abs_diff(
            line.spec_points()[k + 1].0 as int,
            line.spec_points()[k].0 as int,
        ) == 1,
        !line.x_major() ==> abs_diff(
            line.spec_points()[k + 1].1 as int,
            line.spec_points()[k].1 as int,
        ) == 1,
{
    line.lemma_cell_in_box(k);
    line.lemma_cell_in_box(k + 1);
}

/// Every cell of a line is among its cells, and no point outside the
/// bounding box of its ends is.
pub proof fn lemma_hit_test_consistent(line: Line, k: int, p: U16Point)
    requires
        0 <= k <= line.steps(),
    ensures
        line.spec_points().contains(line.spec_points()[k]),
        !line.in_bounding_box(p) ==> !line.spec_points().contains(p),
{
    let pts = line.spec_points();
    assert(pts.contains(pts[k]));
    if !line.in_bounding_box(p) {
        assert forall|j: int| 0 <= j < pts.len() implies pts[j] != p by {
            line.lemma_cell_in_box(j);
        }
    }
}

} // verus!
