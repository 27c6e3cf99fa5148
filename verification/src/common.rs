//! Grid points, coordinate ranges and the small arithmetic shared by the
//! geometry, the rasterizer and the editor.

use vstd::prelude::*;

verus! {

/// A signed pair, used for offsets between grid points.
pub type I32Point = (i32, i32);

/// A grid point: column first, row second.
pub type U16Point = (u16, u16);

/// A pair of indices.
pub type UsizePoint = (usize, usize);

pub const BLOCK_CHAR: &'static str = "░";

pub const BOX_TOP_LEFT_CORNER_CHAR: &'static str = "╔";

pub const BOX_TOP_RIGTH_CORNER_CHAR: &'static str = "╗";

pub const BOX_BOTTOM_LEFT_CORNER_CHAR: &'static str = "╚";

pub const BOX_BOTTOM_RIGTH_CORNER_CHAR: &'static str = "╝";

pub const BOX_VERTICAL_CHAR: &'static str = "║";

pub const BOX_HORIZONTAL_CHAR: &'static str = "═";

pub const LINE_CONNECTION_CHAR: &'static str = "X";

pub const DEFAULT_COLOR_CODE: u8 = 0;

pub enum TextHorizontalAlign {
    Left,
    Center,
}

pub enum TextVercticalAlign {
    Top,
    Center,
}

/// The smaller of two integers.
pub open spec fn min_int(a: int, b: int) -> int {
    if a <= b {
        a
    } else {
        b
    }
}

/// The larger of two integers.
pub open spec fn max_int(a: int, b: int) -> int {
    if a >= b {
        a
    } else {
        b
    }
}

/// `v` brought into the range of a grid coordinate.
pub open spec fn clamp_u16(v: int) -> int {
    if v < 0 {
        0
    } else if v > u16::MAX {
        u16::MAX as int
    } else {
        v
    }
}

/// Whether `v` lies between `lhs` and `rhs`, ends included, whichever of the
/// two is the smaller.
pub open spec fn spec_between_inclusive(lhs: int, rhs: int, v: int) -> bool {
    min_int(lhs, rhs) <= v <= max_int(lhs, rhs)
}

pub fn between_u16_inclusive(lhs: u16, rhs: u16, v: u16) -> (r: bool)
    ensures
        r == spec_between_inclusive(lhs as int, rhs as int, v as int),
{
    if lhs < rhs {
        lhs <= v && v <= rhs
    } else {
        rhs <= v && v <= lhs
    }
}

/// Clamps one signed value to a grid coordinate.
pub fn i32_to_u16_clamped(v: i32) -> (r: u16)
    ensures
        r as int == clamp_u16(v as int),
{
    if v < 0 {
        0
    } else if v > 65535 {
        u16::MAX
    } else {
        v as u16
    }
}

/// Converts a signed pair to a grid point; a coordinate outside the grid is
/// clamped to the nearest edge of it.
pub fn i32point_to_u16point(p: I32Point) -> (r: U16Point)
    ensures
        r.0 as int == clamp_u16(p.0 as int),
        r.1 as int == clamp_u16(p.1 as int),
{
    (i32_to_u16_clamped(p.0), i32_to_u16_clamped(p.1))
}

pub fn u16point_to_i32point(p: U16Point) -> (r: I32Point)
    ensures
        r.0 as int == p.0 as int,
        r.1 as int == p.1 as int,
{
    (p.0 as i32, p.1 as i32)
}

/// Whether `v` lies in `range`, ends included.
pub open spec fn spec_in_range(v: u16, range: U16Point) -> bool {
    range.0 <= v <= range.1
}

/// Whether `v` lies in `range`, ends included. An unordered range holds
/// nothing.
pub fn u16_value_included_in_range(v: u16, range: U16Point) -> (r: bool)
    ensures
        r == spec_in_range(v, range),
{
    range.0 <= v && range.1 >= v
}

/// Whether two ordered ranges share a value.
pub fn u16_range_overlap(lhs: U16Point, rhs: U16Point) -> (r: bool)
    ensures
        r == !(rhs.1 < lhs.0 || rhs.0 > lhs.1),
        (lhs.0 <= lhs.1 && rhs.0 <= rhs.1) ==> (r <==> exists|v: u16|
            spec_in_range(v, lhs) && spec_in_range(v, rhs)),
{
    let r = !(rhs.1 < lhs.0 || rhs.0 > lhs.1);
    proof {
        if lhs.0 <= lhs.1 && rhs.0 <= rhs.1 && r {
            let w: u16 = if lhs.0 >= rhs.0 {
                lhs.0
            } else {
                rhs.0
            };
            assert(spec_in_range(w, lhs) && spec_in_range(w, rhs));
        }
    }
    r
}

/// The corners of the bounding box of two points: smallest column, smallest
/// row, largest column, largest row.
pub fn point_pair_minmax(lhs: U16Point, rhs: U16Point) -> (r: (u16, u16, u16, u16))
    ensures
        r.0 as int == min_int(lhs.0 as int, rhs.0 as int),
        r.1 as int == min_int(lhs.1 as int, rhs.1 as int),
        r.2 as int == max_int(lhs.0 as int, rhs.0 as int),
        r.3 as int == max_int(lhs.1 as int, rhs.1 as int),
{
    let min_x: u16 = if lhs.0 <= rhs.0 { lhs.0 } else { rhs.0 };
    let min_y: u16 = if lhs.1 <= rhs.1 { lhs.1 } else { rhs.1 };
    let max_x: u16 = if lhs.0 >= rhs.0 { lhs.0 } else { rhs.0 };
    let max_y: u16 = if lhs.1 >= rhs.1 { lhs.1 } else { rhs.1 };
    (min_x, min_y, max_x, max_y)
}

/// Pairwise arithmetic on points. `TPair` is the pair type and `T` the type
/// of one coordinate.
pub trait Arithmetics<TPair, T> {
    /// Whether `add` is defined on these operands.
    spec fn add_defined(&self, other: TPair) -> bool;

    /// The pairwise sum.
    spec fn add_value(&self, other: TPair) -> TPair;

    /// Whether `sub` is defined on these operands.
    spec fn sub_defined(&self, other: TPair) -> bool;

    /// The pairwise difference.
    spec fn sub_value(&self, other: TPair) -> TPair;

    /// Whether `div` is defined for this divisor.
    spec fn div_defined(&self, divisor: T) -> bool;

    /// Both coordinates divided by `divisor`, rounding toward zero.
    spec fn div_value(&self, divisor: T) -> TPair;

    fn add(&self, other: TPair) -> (r: TPair)
        requires
            self.add_defined(other),
        ensures
            r == self.add_value(other),
    ;

    fn sub(&self, other: TPair) -> (r: TPair)
        requires
            self.sub_defined(other),
        ensures
            r == self.sub_value(other),
    ;

    fn div(&self, divisor: T) -> (r: TPair)
        requires
            self.div_defined(divisor),
        ensures
            r == self.div_value(divisor),
    ;
}

/// Whether `v` is a value of `i32`.
pub open spec fn fits_i32(v: int) -> bool {
    i32::MIN <= v <= i32::MAX
}

/// `a / b` rounded toward zero, for `b != 0`.
pub open spec fn div_toward_zero(a: int, b: int) -> int {
    if a >= 0 && b > 0 {
        a / b
    } else if a < 0 && b > 0 {
        -((-a) / b)
    } else if a >= 0 && b < 0 {
        -(a / (-b))
    } else {
        (-a) / (-b)
    }
}

/// The size of `v` as an unsigned value.
fn i32_magnitude(v: i32) -> (r: u32)
    ensures
        r as int == if v >= 0 {
            v as int
        } else {
            -(v as int)
        },
{
    if v >= 0 {
        v as u32
    } else {
        (-(v as i64)) as u32
    }
}

/// Signed division that rounds toward zero.
pub fn i32_div_toward_zero(a: i32, b: i32) -> (r: i32)
    requires
        b != 0,
        !(b == -1 && a == i32::MIN),
    ensures
        r as int == div_toward_zero(a as int, b as int),
{
    let ma: u32 = i32_magnitude(a);
    let mb: u32 = i32_magnitude(b);
    let q: u32 = ma / mb;
    assert(q <= ma) by (nonlinear_arith)
        requires
            q == ma / mb,
            mb >= 1,
    ;
    if (a < 0) != (b < 0) {
        (-(q as i64)) as i32
    } else {
        assert(q as int <= i32::MAX) by (nonlinear_arith)
            requires
                q == ma / mb,
                ma <= 0x8000_0000,
                mb >= 1,
                ma == 0x8000_0000 ==> mb >= 2,
        ;
        q as i32
    }
}

/// `v` reduced into the range of a grid coordinate, as two's complement
/// arithmetic does.
pub open spec fn wrap_u16(v: int) -> int {
    v % 65536
}

impl Arithmetics<I32Point, i32> for I32Point {
    /// Neither coordinate of the sum leaves `i32`.
    open spec fn add_defined(&self, other: I32Point) -> bool {
        fits_i32(self.0 + other.0) && fits_i32(self.1 + other.1)
    }

    open spec fn add_value(&self, other: I32Point) -> I32Point {
        ((self.0 + other.0) as i32, (self.1 + other.1) as i32)
    }

    /// Neither coordinate of the difference leaves `i32`.
    open spec fn sub_defined(&self, other: I32Point) -> bool {
        fits_i32(self.0 - other.0) && fits_i32(self.1 - other.1)
    }

    open spec fn sub_value(&self, other: I32Point) -> I32Point {
        ((self.0 - other.0) as i32, (self.1 - other.1) as i32)
    }

    /// The divisor is not zero and no quotient leaves `i32`.
    open spec fn div_defined(&self, divisor: i32) -> bool {
        divisor != 0 && !(divisor == -1 && (self.0 == i32::MIN || self.1 == i32::MIN))
    }

    open spec fn div_value(&self, divisor: i32) -> I32Point {
        (
            div_toward_zero(self.0 as int, divisor as int) as i32,
            div_toward_zero(self.1 as int, divisor as int) as i32,
        )
    }

    fn add(&self, other: I32Point) -> (r: I32Point) {
        (self.0 + other.0, self.1 + other.1)
    }

    fn sub(&self, other: I32Point) -> (r: I32Point) {
        (self.0 - other.0, self.1 - other.1)
    }

    fn div(&self, divisor: i32) -> (r: I32Point) {
        (i32_div_toward_zero(self.0, divisor), i32_div_toward_zero(self.1, divisor))
    }
}

impl Arithmetics<U16Point, u16> for U16Point {
    /// Always: the sum wraps.
    open spec fn add_defined(&self, other: U16Point) -> bool {
        true
    }

    open spec fn add_value(&self, other: U16Point) -> U16Point {
        (wrap_u16(self.0 + other.0) as u16, wrap_u16(self.1 + other.1) as u16)
    }

    /// Always: the difference wraps.
    open spec fn sub_defined(&self, other: U16Point) -> bool {
        true
    }

    open spec fn sub_value(&self, other: U16Point) -> U16Point {
        (wrap_u16(self.0 - other.0) as u16, wrap_u16(self.1 - other.1) as u16)
    }

    /// The divisor is not zero.
    open spec fn div_defined(&self, divisor: u16) -> bool {
        divisor != 0
    }

    open spec fn div_value(&self, divisor: u16) -> U16Point {
        ((self.0 / divisor) as u16, (self.1 / divisor) as u16)
    }

    fn add(&self, other: U16Point) -> (r: U16Point) {
        (self.0.wrapping_add(other.0), self.1.wrapping_add(other.1))
    }

    fn sub(&self, other: U16Point) -> (r: U16Point) {
        (self.0.wrapping_sub(other.0), self.1.wrapping_sub(other.1))
    }

    fn div(&self, divisor: u16) -> (r: U16Point) {
        (self.0 / divisor, self.1 / divisor)
    }
}

/// Where line `line_index` of a block of text starts, as a pair of integers:
/// a left-aligned line starts in the column of `start`, a centred one half
/// its length to the left of it; a top-aligned block has its first line in
/// the row of `start`, a centred one is moved up by half its line count.
pub open spec fn spec_multiline_text_line_start(
    line_count: u16,
    line_length: u16,
    line_index: u16,
    start: U16Point,
    horizontal_align: TextHorizontalAlign,
    vertical_align: TextVercticalAlign,
) -> (int, int) {
    (
        match horizontal_align {
            TextHorizontalAlign::Left => start.0 as int,
            TextHorizontalAlign::Center => start.0 - line_length / 2,
        },
        match vertical_align {
            TextVercticalAlign::Top => start.1 + line_index,
            TextVercticalAlign::Center => start.1 + line_index - line_count / 2,
        },
    )
}

/// The grid point at which line `line_index` of a block of text starts. A
/// coordinate that would leave the grid is clamped to its edge.
pub fn multiline_text_line_start(
    line_count: u16,
    line_length: u16,
    line_index: u16,
    start: U16Point,
    horizontal_align: TextHorizontalAlign,
    vertical_align: TextVercticalAlign,
) -> (r: U16Point)
    ensures
        r.0 as int == clamp_u16(
            spec_multiline_text_line_start(
                line_count,
                line_length,
                line_index,
                start,
                horizontal_align,
                vertical_align,
            ).0,
        ),
        r.1 as int == clamp_u16(
            spec_multiline_text_line_start(
                line_count,
                line_length,
                line_index,
                start,
                horizontal_align,
                vertical_align,
            ).1,
        ),
{
    let x: u16 = match horizontal_align {
        TextHorizontalAlign::Left => start.0,
        TextHorizontalAlign::Center => {
            if start.0 < (line_length / 2) {
                0
            } else {
                start.0 - (line_length / 2)
            }
        },
    };
    let row: u32 = start.1 as u32 + line_index as u32;
    let y: u16 = match vertical_align {
        TextVercticalAlign::Center => {
            let half: u32 = (line_count / 2) as u32;
            if row < half {
                0
            } else if row - half > 65535 {
                u16::MAX
            } else {
                (row - half) as u16
            }
        },
        TextVercticalAlign::Top => {
            if row > 65535 {
                u16::MAX
            } else {
                row as u16
            }
        },
    };
    (x, y)
}

} // verus!
