//! The objects of a diagram: rectangles, lines, texts and freehand strokes.

use vstd::prelude::*;
use crate::common::{
    TextHorizontalAlign,
    TextVercticalAlign,
    U16Point,
    clamp_u16,
    multiline_text_line_start,
    spec_multiline_text_line_start,
};
use crate::line::Line;
use crate::rect::Rect;
use crate::text_editor::lines_view;

verus! {

/// An object's identifier. No two objects of a diagram share one.
pub type IdType = u64;

/// The number of colours that an object can have.
pub const COLOR_COUNT: usize = 10;

/// The terminal colour code of the colour with index `color`.
pub open spec fn spec_color_code(color: int) -> u8 {
    if color == 1 {
        31
    } else if color == 2 {
        33
    } else if 3 <= color <= 9 {
        (87 + color) as u8
    } else {
        39
    }
}

/// The terminal colour code of the colour with index `color`: the default
/// colour, red, yellow, dark gray, then the light colours from red to cyan.
pub fn color_code(color: usize) -> (r: u8)
    requires
        color < COLOR_COUNT,
    ensures
        r == spec_color_code(color as int),
{
    if color == 0 {
        39
    } else if color == 1 {
        31
    } else if color == 2 {
        33
    } else {
        (87 + color) as u8
    }
}

/// The name of the colour with index `color`.
pub open spec fn spec_color_name(color: int) -> Seq<char> {
    if color == 0 {
        "Default color"@
    } else if color == 1 {
        "Red"@
    } else if color == 2 {
        "Yellow"@
    } else if color == 3 {
        "Dark gray"@
    } else if color == 4 {
        "Light red"@
    } else if color == 5 {
        "Light green"@
    } else if color == 6 {
        "Light yellow"@
    } else if color == 7 {
        "Light blue"@
    } else if color == 8 {
        "Light magenta"@
    } else {
        "Light cyan"@
    }
}

/// The name of the colour with index `color`.
pub fn color_name(color: usize) -> (r: &'static str)
    requires
        color < COLOR_COUNT,
    ensures
        r@ == spec_color_name(color as int),
{
    match color {
        0 => "Default color",
        1 => "Red",
        2 => "Yellow",
        3 => "Dark gray",
        4 => "Light red",
        5 => "Light green",
        6 => "Light yellow",
        7 => "Light blue",
        8 => "Light magenta",
        _ => "Light cyan",
    }
}

#[derive(Debug, Clone, Copy)]
pub struct RectObject {
    pub id: IdType,
    pub color: usize,
    pub rect: Rect,
}

impl RectObject {
    /// Whether `p` is the lower-right corner, by which a rectangle is
    /// resized.
    pub open spec fn spec_is_resize_point(&self, p: U16Point) -> bool {
        p.0 == self.rect.right() && p.1 == self.rect.bottom()
    }

    /// Whether `p` lies on the top edge, by which a rectangle is dragged.
    pub open spec fn spec_is_drag_point(&self, p: U16Point) -> bool {
        self.rect.spec_is_point_on_header(p)
    }

    pub fn new(id: IdType, color: usize, rect: Rect) -> (r: Self)
        ensures
            r == (RectObject { id, color, rect }),
    {
        Self { id, color, rect }
    }

    /// Makes the rectangle the one spanned by `previous_start` and `end`.
    pub fn resize(&mut self, previous_start: U16Point, end: U16Point)
        ensures
            final(self).rect == Rect::spec_from_points(previous_start, end),
            final(self).id == old(self).id,
            final(self).color == old(self).color,
    {
        self.rect = Rect::new_from_unordered_points(previous_start, end);
    }

    pub fn is_resize_point(&self, p: U16Point) -> (r: bool)
        ensures
            r == self.spec_is_resize_point(p),
    {
        p.0 as u32 == self.rect.start.0 as u32 + self.rect.size.0 as u32 && p.1 as u32
            == self.rect.start.1 as u32 + self.rect.size.1 as u32
    }

    pub fn is_drag_point(&self, p: U16Point) -> (r: bool)
        ensures
            r == self.spec_is_drag_point(p),
    {
        self.rect.is_point_on_header(p)
    }
}

#[derive(Debug, Clone, Copy)]
pub struct LineObject {
    pub id: IdType,
    pub line: Line,
    /// The rectangle that the start follows, if any.
    pub start_anchor_rect_id: Option<IdType>,
    /// The rectangle that the end follows, if any.
    pub end_anchor_rect_id: Option<IdType>,
    pub color: usize,
    /// A point at which the line is bent: it is then drawn from its start
    /// to this point and from there to its end.
    pub segment: Option<U16Point>,
}

impl LineObject {
    /// Whether `p` is one of the two ends, by which a line is dragged.
    pub open spec fn spec_is_drag_point(&self, p: U16Point) -> bool {
        p == self.line.start || p == self.line.end
    }

    /// The part of the line that leaves its start.
    pub open spec fn spec_start_line_segment(&self) -> Line {
        match self.segment {
            Some(bend) => Line { start: self.line.start, end: bend },
            None => self.line,
        }
    }

    /// The part of the line that reaches its end.
    pub open spec fn spec_end_line_segment(&self) -> Line {
        match self.segment {
            Some(bend) => Line { start: bend, end: self.line.end },
            None => self.line,
        }
    }

    /// Whether `p` is one of the cells that draw the line, through its bend
    /// where it has one.
    pub open spec fn spec_is_point_on(&self, p: U16Point) -> bool {
        self.spec_start_line_segment().spec_points().contains(p)
            || self.spec_end_line_segment().spec_points().contains(p)
    }

    /// A straight line without anchors.
    pub fn new(id: IdType, line: Line, color: usize) -> (r: Self)
        ensures
            r == (LineObject {
                id,
                line,
                start_anchor_rect_id: None,
                end_anchor_rect_id: None,
                color,
                segment: None,
            }),
    {
        Self {
            id,
            line,
            start_anchor_rect_id: None,
            end_anchor_rect_id: None,
            color,
            segment: None,
        }
    }

    pub fn is_drag_point(&self, p: U16Point) -> (r: bool)
        ensures
            r == self.spec_is_drag_point(p),
    {
        (p.0 == self.line.start.0 && p.1 == self.line.start.1) || (p.0 == self.line.end.0 && p.1
            == self.line.end.1)
    }

    pub fn is_point_on(&self, p: U16Point) -> (r: bool)
        ensures
            r == self.spec_is_point_on(p),
    {
        match self.segment {
            Some(bend) => {
                (Line { start: self.line.start, end: bend }).is_point_on(p) || (Line {
                    start: bend,
                    end: self.line.end,
                }).is_point_on(p)
            },
            None => self.line.is_point_on(p),
        }
    }

    pub fn start_line_segment(&self) -> (r: Line)
        ensures
            r == self.spec_start_line_segment(),
    {
        match self.segment {
            Some(bend) => Line { start: self.line.start, end: bend },
            None => self.line,
        }
    }

    pub fn end_line_segment(&self) -> (r: Line)
        ensures
            r == self.spec_end_line_segment(),
    {
        match self.segment {
            Some(bend) => Line { start: bend, end: self.line.end },
            None => self.line,
        }
    }
}

/// The width of a line of text in cells: the length of its UTF-8 encoding.
pub open spec fn line_width(line: Seq<char>) -> int {
    vstd::utf8::encode_utf8(line).len() as int
}

/// What a text object holds.
pub struct TextObjectView {
    pub id: IdType,
    pub start: U16Point,
    pub lines: Seq<Seq<char>>,
    pub anchor_rect_id: Option<IdType>,
    pub color: usize,
}

impl TextObjectView {
    /// Where line `index` starts: a free text runs to the right and down
    /// from `start`, a text anchored to a rectangle is centred on `start`
    /// in both directions.
    pub open spec fn line_start(self, index: int) -> U16Point {
        let place = spec_multiline_text_line_start(
            clamp_u16(self.lines.len() as int) as u16,
            clamp_u16(line_width(self.lines[index])) as u16,
            clamp_u16(index) as u16,
            self.start,
            if self.anchor_rect_id.is_some() {
                TextHorizontalAlign::Center
            } else {
                TextHorizontalAlign::Left
            },
            if self.anchor_rect_id.is_some() {
                TextVercticalAlign::Center
            } else {
                TextVercticalAlign::Top
            },
        );
        (clamp_u16(place.0) as u16, clamp_u16(place.1) as u16)
    }

    /// Whether `p` lies on line `index`: in its row, from its first cell to
    /// the cell after its last.
    pub open spec fn is_point_on_line(self, index: int, p: U16Point) -> bool {
        p.1 == self.line_start(index).1 && self.line_start(index).0 <= p.0 <= self.line_start(
            index,
        ).0 + line_width(self.lines[index])
    }

    /// Whether `p` lies on one of the lines.
    pub open spec fn is_point_on(self, p: U16Point) -> bool {
        exists|i: int| 0 <= i < self.lines.len() && #[trigger] self.is_point_on_line(i, p)
    }

    /// Whether `p` is the point at which the text is picked up for
    /// editing: its start.
    pub open spec fn is_edit_point(self, p: U16Point) -> bool {
        self.start == p
    }
}

#[derive(Debug)]
pub struct TextObject {
    pub id: IdType,
    pub start: U16Point,
    pub lines: Vec<String>,
    /// The rectangle that the text follows, if any.
    pub anchor_rect_id: Option<IdType>,
    pub color: usize,
}

impl View for TextObject {
    type V = TextObjectView;

    open spec fn view(&self) -> TextObjectView {
        TextObjectView {
            id: self.id,
            start: self.start,
            lines: lines_view(self.lines@),
            anchor_rect_id: self.anchor_rect_id,
            color: self.color,
        }
    }
}

/// The width of `line` in cells.
fn width_of(line: &String) -> (r: usize)
    ensures
        r as int == line_width(line@),
{
    line.as_str().as_bytes().len()
}

/// `v` as a grid coordinate, or the largest one where `v` is beyond the grid.
fn usize_to_u16_clamped(v: usize) -> (r: u16)
    ensures
        r as int == clamp_u16(v as int),
{
    if v > 65535 {
        u16::MAX
    } else {
        v as u16
    }
}

impl TextObject {
    pub fn new(
        id: IdType,
        start: U16Point,
        lines: Vec<String>,
        anchor_rect_id: Option<IdType>,
        color: usize,
    ) -> (r: Self)
        ensures
            r == (TextObject { id, start, lines, anchor_rect_id, color }),
    {
        Self { id, start, lines, anchor_rect_id, color }
    }

    pub fn is_edit_point(&self, p: U16Point) -> (r: bool)
        ensures
            r == self@.is_edit_point(p),
    {
        self.start.0 == p.0 && self.start.1 == p.1
    }

    /// Where line `index` starts.
    pub fn line_start(&self, index: usize) -> (r: U16Point)
        requires
            index < self.lines@.len(),
        ensures
            r == self@.line_start(index as int),
    {
        let anchored: bool = self.anchor_rect_id.is_some();
        let halign = if anchored {
            TextHorizontalAlign::Center
        } else {
            TextHorizontalAlign::Left
        };
        let valign = if anchored {
            TextVercticalAlign::Center
        } else {
            TextVercticalAlign::Top
        };
        multiline_text_line_start(
            usize_to_u16_clamped(self.lines.len()),
            usize_to_u16_clamped(width_of(&self.lines[index])),
            usize_to_u16_clamped(index),
            self.start,
            halign,
            valign,
        )
    }

    /// Whether `p` lies on one of the lines of the text.
    pub fn is_point_on(&self, p: U16Point) -> (r: bool)
        ensures
            r == self@.is_point_on(p),
    {
        let mut i: usize = 0;
        while i < self.lines.len()
            invariant
                0 <= i <= self.lines@.len(),
                forall|j: int| 0 <= j < i ==> !#[trigger] self@.is_point_on_line(j, p),
            decreases self.lines.len() - i,
        {
            let pos: U16Point = self.line_start(i);
            let width: usize = width_of(&self.lines[i]);
            if pos.1 == p.1 && pos.0 <= p.0 && (p.0 - pos.0) as usize <= width {
                assert(self@.is_point_on_line(i as int, p));
                return true;
            }
            i = i + 1;
        }
        false
    }
}

/// A stroke drawn by hand: the cells that it covers, in the order in which
/// they were drawn.
#[derive(Debug)]
pub struct Freehand {
    pub points: Vec<U16Point>,
    pub color: usize,
}

/// What a stroke holds.
pub struct FreehandView {
    pub points: Seq<U16Point>,
    pub color: usize,
}

impl View for Freehand {
    type V = FreehandView;

    open spec fn view(&self) -> FreehandView {
        FreehandView { points: self.points@, color: self.color }
    }
}

impl Freehand {
    pub fn new(points: Vec<U16Point>, color: usize) -> (r: Self)
        ensures
            r == (Freehand { points, color }),
    {
        Self { points, color }
    }
}

} // verus!
