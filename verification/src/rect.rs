//! Axis-aligned rectangles on the grid.

use vstd::prelude::*;
use crate::common::{U16Point, point_pair_minmax, min_int, max_int, clamp_u16};

verus! {

/// A rectangle given by its upper-left corner and its extent. Both are
/// unsigned, so `start` is the smallest corner whatever the fields hold.
#[derive(Clone, Copy, Debug)]
pub struct Rect {
    /// The upper-left corner: smallest column, smallest row.
    pub start: U16Point,
    /// Width and height.
    pub size: U16Point,
}

impl Rect {
    /// The column of the right edge.
    pub open spec fn right(&self) -> int {
        self.start.0 + self.size.0
    }

    /// The row of the bottom edge.
    pub open spec fn bottom(&self) -> int {
        self.start.1 + self.size.1
    }

    /// Whether the lower-right corner is a point of the grid.
    pub open spec fn fits(&self) -> bool {
        self.right() <= u16::MAX && self.bottom() <= u16::MAX
    }

    /// The rectangle spanned by two corner points, in either order.
    pub open spec fn spec_from_points(lhs: U16Point, rhs: U16Point) -> Rect {
        Rect {
            start: (
                min_int(lhs.0 as int, rhs.0 as int) as u16,
                min_int(lhs.1 as int, rhs.1 as int) as u16,
            ),
            size: (
                (max_int(lhs.0 as int, rhs.0 as int) - min_int(lhs.0 as int, rhs.0 as int)) as u16,
                (max_int(lhs.1 as int, rhs.1 as int) - min_int(lhs.1 as int, rhs.1 as int)) as u16,
            ),
        }
    }

    /// Whether `p` lies on the top edge.
    pub open spec fn spec_is_point_on_header(&self, p: U16Point) -> bool {
        p.1 == self.start.1 && self.start.0 <= p.0 <= self.right()
    }

    /// Whether `p` lies in the closed rectangle.
    pub open spec fn spec_is_point_on(&self, p: U16Point) -> bool {
        self.start.0 <= p.0 <= self.right() && self.start.1 <= p.1 <= self.bottom()
    }

    /// Whether `p` lies at least one cell in from every edge.
    pub open spec fn spec_is_point_inside(&self, p: U16Point) -> bool {
        self.start.0 + 1 <= p.0 <= self.right() - 1 && self.start.1 + 1 <= p.1 <= self.bottom()
            - 1
    }

    /// The centre, rounded toward `start` and clamped to the grid.
    pub open spec fn spec_midpoint(&self) -> U16Point {
        (
            clamp_u16(self.start.0 + self.size.0 / 2) as u16,
            clamp_u16(self.start.1 + self.size.1 / 2) as u16,
        )
    }

    /// The number of cells between the edges: width times height.
    pub open spec fn spec_area(&self) -> int {
        self.size.0 * self.size.1
    }

    pub fn new_from_unordered_points(lhs: U16Point, rhs: U16Point) -> (r: Self)
        ensures
            r == Self::spec_from_points(lhs, rhs),
            r.fits(),
            r.start.0 <= lhs.0 <= r.right(),
            r.start.0 <= rhs.0 <= r.right(),
            r.start.1 <= lhs.1 <= r.bottom(),
            r.start.1 <= rhs.1 <= r.bottom(),
    {
        let (min_x, min_y, max_x, max_y) = point_pair_minmax(lhs, rhs);
        Self { start: (min_x, min_y), size: (max_x - min_x, max_y - min_y) }
    }

    pub fn is_point_on_header(&self, p: U16Point) -> (r: bool)
        ensures
            r == self.spec_is_point_on_header(p),
    {
        p.1 == self.start.1 && p.0 >= self.start.0 && p.0 as u32 <= self.start.0 as u32
            + self.size.0 as u32
    }

    pub fn is_point_on(&self, p: U16Point) -> (r: bool)
        ensures
            r == self.spec_is_point_on(p),
    {
        p.0 >= self.start.0 && p.0 as u32 <= self.start.0 as u32 + self.size.0 as u32 && p.1
            >= self.start.1 && p.1 as u32 <= self.start.1 as u32 + self.size.1 as u32
    }

    pub fn is_point_inside(&self, p: U16Point) -> (r: bool)
        ensures
            r == self.spec_is_point_inside(p),
    {
        p.0 as u32 >= self.start.0 as u32 + 1 && p.0 as u32 + 1 <= self.start.0 as u32
            + self.size.0 as u32 && p.1 as u32 >= self.start.1 as u32 + 1 && p.1 as u32 + 1
            <= self.start.1 as u32 + self.size.1 as u32
    }

    /// The centre, rounded toward `start`. A coordinate beyond the grid is
    /// clamped to its edge.
    pub fn midpoint(&self) -> (r: U16Point)
        ensures
            r == self.spec_midpoint(),
            self.fits() ==> self.spec_is_point_on(r),
            self.fits() ==> r.0 == self.start.0 + self.size.0 / 2 && r.1 == self.start.1
                + self.size.1 / 2,
    {
        (
            clamp_to_u16(self.start.0 as u32 + (self.size.0 / 2) as u32),
            clamp_to_u16(self.start.1 as u32 + (self.size.1 / 2) as u32),
        )
    }

    /// The lower-right corner. A coordinate beyond the grid is clamped to
    /// its edge.
    pub fn end(&self) -> (r: U16Point)
        ensures
            r.0 as int == clamp_u16(self.right()),
            r.1 as int == clamp_u16(self.bottom()),
            self.start.0 <= r.0,
            self.start.1 <= r.1,
    {
        (
            clamp_to_u16(self.start.0 as u32 + self.size.0 as u32),
            clamp_to_u16(self.start.1 as u32 + self.size.1 as u32),
        )
    }

    pub fn area(&self) -> (r: u32)
        ensures
            r as int == self.spec_area(),
    {
        assert(self.size.0 * self.size.1 <= 65535 * 65535) by (nonlinear_arith)
            requires
                self.size.0 <= 65535,
                self.size.1 <= 65535,
        ;
        self.size.0 as u32 * self.size.1 as u32
    }
}

/// `v` as a grid coordinate, or the largest one where `v` is beyond the grid.
fn clamp_to_u16(v: u32) -> (r: u16)
    ensures
        r as int == clamp_u16(v as int),
{
    if v > 65535 {
        u16::MAX
    } else {
        v as u16
    }
}

/// A rectangle does not depend on the order in which its two corners are
/// given, and its upper-left corner is never beyond its lower-right one.
pub proof fn lemma_rect_normalized(a: U16Point, b: U16Point)
    ensures
        Rect::spec_from_points(a, b) == Rect::spec_from_points(b, a),
        Rect::spec_from_points(a, b).start.0 <= Rect::spec_from_points(a, b).right(),
        Rect::spec_from_points(a, b).start.1 <= Rect::spec_from_points(a, b).bottom(),
        Rect::spec_from_points(a, b).right() == max_int(a.0 as int, b.0 as int),
        Rect::spec_from_points(a, b).bottom() == max_int(a.1 as int, b.1 as int),
{
}

} // verus!
