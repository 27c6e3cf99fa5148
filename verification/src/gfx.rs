//! The drawing surface: it turns rectangles, lines and texts into a list of
//! simple commands for a terminal, which whoever owns the terminal carries
//! out.

use vstd::prelude::*;
use vstd::string::StringExecFns;
use crate::common::{
    BLOCK_CHAR,
    BOX_BOTTOM_LEFT_CORNER_CHAR,
    BOX_BOTTOM_RIGTH_CORNER_CHAR,
    BOX_HORIZONTAL_CHAR,
    BOX_TOP_LEFT_CORNER_CHAR,
    BOX_TOP_RIGTH_CORNER_CHAR,
    BOX_VERTICAL_CHAR,
    LINE_CONNECTION_CHAR,
    U16Point,
    clamp_u16,
    max_int,
    min_int,
    point_pair_minmax,
};
use crate::line::{Line, LinePointsIterator};
use crate::rect::Rect;
use crate::text_editor::lines_view;

verus! {

/// One step of drawing on a terminal.
#[derive(Debug, PartialEq, Eq)]
pub enum DrawCommand {
    /// Clear the whole screen.
    Clear,
    /// Write from now on in the colour with this terminal colour code.
    SetColor(u8),
    /// Write from now on in the terminal's own colour.
    ResetColor,
    /// Write `text` from the cell in column `x` and row `y` on, in the
    /// colour that is in force.
    TextAt { x: u16, y: u16, text: String },
    /// Write `text` from the cell in column `x` and row `y` on, in the
    /// colour with the code `color`, and go back to the terminal's own
    /// colour.
    ColoredTextAt { x: u16, y: u16, text: String, color: u8 },
    /// Write `text` where the last writing ended.
    Text { text: String },
}

/// What a drawing command holds.
pub enum DrawCommandView {
    Clear,
    SetColor(u8),
    ResetColor,
    TextAt { x: u16, y: u16, text: Seq<char> },
    ColoredTextAt { x: u16, y: u16, text: Seq<char>, color: u8 },
    Text { text: Seq<char> },
}

impl View for DrawCommand {
    type V = DrawCommandView;

    open spec fn view(&self) -> DrawCommandView {
        match *self {
            DrawCommand::Clear => DrawCommandView::Clear,
            DrawCommand::SetColor(c) => DrawCommandView::SetColor(c),
            DrawCommand::ResetColor => DrawCommandView::ResetColor,
            DrawCommand::TextAt { x, y, text } => DrawCommandView::TextAt { x, y, text: text@ },
            DrawCommand::ColoredTextAt { x, y, text, color } => DrawCommandView::ColoredTextAt {
                x,
                y,
                text: text@,
                color,
            },
            DrawCommand::Text { text } => DrawCommandView::Text { text: text@ },
        }
    }
}

/// What each command of `commands` holds.
pub open spec fn commands_view(commands: Seq<DrawCommand>) -> Seq<DrawCommandView> {
    Seq::new(commands.len(), |i: int| commands[i]@)
}

/// `s` written `n` times in a row.
pub open spec fn repeated(s: Seq<char>, n: nat) -> Seq<char>
    decreases n,
{
    if n == 0 {
        Seq::empty()
    } else {
        repeated(s, (n - 1) as nat) + s
    }
}

/// `s` written `n` times in a row.
pub fn repeat_str(s: &str, n: usize) -> (r: String)
    ensures
        r@ == repeated(s@, n as nat),
{
    let mut out = String::new();
    let mut i: usize = 0;
    while i < n
        invariant
            0 <= i <= n,
            out@ == repeated(s@, i as nat),
        decreases n - i,
    {
        out.append(s);
        i = i + 1;
    }
    out
}

/// The commands that write the lines of a text below one another from
/// the cell `(x, y)` on, in the colour `color`. A row beyond the grid is the
/// last row.
pub open spec fn multiline_text_commands(
    lines: Seq<Seq<char>>,
    x: u16,
    y: u16,
    color: u8,
) -> Seq<DrawCommandView> {
    Seq::new(
        lines.len(),
        |i: int|
            DrawCommandView::ColoredTextAt { x, y: clamp_u16(y + i) as u16, text: lines[i], color },
    )
}

/// The commands that draw the two upright edges of a box between the rows
/// `y_min` and `y_max`: row by row, the left edge before the right.
pub open spec fn box_side_commands(x_min: u16, x_max: u16, y_min: u16, y_max: u16) -> Seq<
    DrawCommandView,
> {
    Seq::new(
        (2 * (y_max - y_min + 1)) as nat,
        |i: int|
            DrawCommandView::TextAt {
                x: if i % 2 == 0 {
                    x_min
                } else {
                    x_max
                },
                y: (y_min + i / 2) as u16,
                text: BOX_VERTICAL_CHAR@,
            },
    )
}

/// The commands that draw the two level edges of a box between its
/// corners, the upper before the lower; none for a box too narrow to have
/// any.
pub open spec fn box_level_commands(x_min: u16, x_max: u16, y_min: u16, y_max: u16) -> Seq<
    DrawCommandView,
> {
    if x_max - x_min >= 2 {
        seq![
            DrawCommandView::TextAt {
                x: (x_min + 1) as u16,
                y: y_min,
                text: repeated(BOX_HORIZONTAL_CHAR@, (x_max - x_min - 1) as nat),
            },
            DrawCommandView::TextAt {
                x: (x_min + 1) as u16,
                y: y_max,
                text: repeated(BOX_HORIZONTAL_CHAR@, (x_max - x_min - 1) as nat),
            },
        ]
    } else {
        Seq::empty()
    }
}

/// The commands that draw the four corners of a box.
pub open spec fn box_corner_commands(x_min: u16, x_max: u16, y_min: u16, y_max: u16) -> Seq<
    DrawCommandView,
> {
    seq![
        DrawCommandView::TextAt { x: x_min, y: y_min, text: BOX_TOP_LEFT_CORNER_CHAR@ },
        DrawCommandView::TextAt { x: x_max, y: y_min, text: BOX_TOP_RIGTH_CORNER_CHAR@ },
        DrawCommandView::TextAt { x: x_min, y: y_max, text: BOX_BOTTOM_LEFT_CORNER_CHAR@ },
        DrawCommandView::TextAt { x: x_max, y: y_max, text: BOX_BOTTOM_RIGTH_CORNER_CHAR@ },
    ]
}

/// The commands that draw the border of the rectangle that two corners
/// span, in the colour `color`: the colour, the upright edges, the level
/// edges, the corners, and the terminal's own colour again.
pub open spec fn rect_commands(lhs: U16Point, rhs: U16Point, color: u8) -> Seq<DrawCommandView> {
    let x_min = min_int(lhs.0 as int, rhs.0 as int) as u16;
    let y_min = min_int(lhs.1 as int, rhs.1 as int) as u16;
    let x_max = max_int(lhs.0 as int, rhs.0 as int) as u16;
    let y_max = max_int(lhs.1 as int, rhs.1 as int) as u16;
    seq![DrawCommandView::SetColor(color)] + box_side_commands(x_min, x_max, y_min, y_max)
        + box_level_commands(x_min, x_max, y_min, y_max) + box_corner_commands(
        x_min,
        x_max,
        y_min,
        y_max,
    ) + seq![DrawCommandView::ResetColor]
}

/// The commands that draw the cells of a line.
pub open spec fn line_cell_commands(line: Line) -> Seq<DrawCommandView> {
    Seq::new(
        line.spec_points().len(),
        |i: int|
            DrawCommandView::TextAt {
                x: line.spec_points()[i].0,
                y: line.spec_points()[i].1,
                text: BLOCK_CHAR@,
            },
    )
}

/// The commands that draw a line in the colour `color`: the colour, the
/// cells of the line, a mark on each of its two ends, and the terminal's
/// own colour again.
pub open spec fn line_commands(start: U16Point, end: U16Point, color: u8) -> Seq<DrawCommandView> {
    seq![DrawCommandView::SetColor(color)] + line_cell_commands(Line { start, end }) + seq![
        DrawCommandView::TextAt { x: start.0, y: start.1, text: LINE_CONNECTION_CHAR@ },
        DrawCommandView::TextAt { x: end.0, y: end.1, text: LINE_CONNECTION_CHAR@ },
        DrawCommandView::ResetColor,
    ]
}

/// The drawing surface. It knows how large the terminal is and collects
/// the commands of a frame.
pub struct Gfx {
    /// The number of columns of the terminal.
    pub width: u16,
    /// The number of rows of the terminal.
    pub height: u16,
    /// The commands that were collected and not yet taken.
    pub commands: Vec<DrawCommand>,
}

impl Gfx {
    /// The commands that were collected and not yet taken.
    pub open spec fn recorded(&self) -> Seq<DrawCommandView> {
        commands_view(self.commands@)
    }

    /// Whether `self` is `before` with the commands `added` at its end.
    pub open spec fn extends(&self, before: &Gfx, added: Seq<DrawCommandView>) -> bool {
        &&& self.recorded() == before.recorded() + added
        &&& self.width == before.width
        &&& self.height == before.height
    }

    /// A surface for a terminal whose size is not known yet.
    pub fn new() -> (r: Self)
        ensures
            r.width == 0,
            r.height == 0,
            r.recorded() == Seq::<DrawCommandView>::empty(),
    {
        let r = Self { width: 0, height: 0, commands: Vec::new() };
        assert(r.recorded() =~= Seq::<DrawCommandView>::empty());
        r
    }

    /// Hands out the commands that were collected, and starts anew.
    pub fn take_commands(&mut self) -> (r: Vec<DrawCommand>)
        ensures
            commands_view(r@) == old(self).recorded(),
            final(self).recorded() == Seq::<DrawCommandView>::empty(),
            final(self).width == old(self).width,
            final(self).height == old(self).height,
    {
        let mut taken: Vec<DrawCommand> = Vec::new();
        core::mem::swap(&mut taken, &mut self.commands);
        assert(self.recorded() =~= Seq::<DrawCommandView>::empty());
        taken
    }

    /// Collects one command.
    fn record(&mut self, command: DrawCommand)
        ensures
            final(self).extends(old(self), seq![command@]),
            final(self).recorded() == old(self).recorded().push(command@),
    {
        self.commands.push(command);
        assert(self.recorded() =~= old(self).recorded().push(command@));
        assert(self.recorded() =~= old(self).recorded() + seq![command@]);
    }

    pub fn clear_screen(&mut self)
        ensures
            final(self).extends(old(self), seq![DrawCommandView::Clear]),
    {
        self.record(DrawCommand::Clear);
    }

    /// From now on, write in the colour with the code `color`.
    pub fn set_color(&mut self, color: u8)
        ensures
            final(self).extends(old(self), seq![DrawCommandView::SetColor(color)]),
    {
        self.record(DrawCommand::SetColor(color));
    }

    /// From now on, write in the terminal's own colour.
    pub fn reset_color(&mut self)
        ensures
            final(self).extends(old(self), seq![DrawCommandView::ResetColor]),
    {
        self.record(DrawCommand::ResetColor);
    }

    pub fn draw_text(&mut self, text: &str, x: u16, y: u16, color: u8)
        ensures
            final(self).extends(
                old(self),
                seq![DrawCommandView::ColoredTextAt { x, y, text: text@, color }],
            ),
    {
        self.record(DrawCommand::ColoredTextAt { x, y, text: String::from_str(text), color });
    }

    pub fn draw_text_uncoloured(&mut self, text: &str, x: u16, y: u16)
        ensures
            final(self).extends(old(self), seq![DrawCommandView::TextAt { x, y, text: text@ }]),
    {
        self.record(DrawCommand::TextAt { x, y, text: String::from_str(text) });
    }

    pub fn draw_text_to_current_pos(&mut self, text: &str)
        ensures
            final(self).extends(old(self), seq![DrawCommandView::Text { text: text@ }]),
    {
        self.record(DrawCommand::Text { text: String::from_str(text) });
    }

    pub fn draw_text_at_point(&mut self, text: &str, p: U16Point, color: u8)
        ensures
            final(self).extends(
                old(self),
                seq![DrawCommandView::ColoredTextAt { x: p.0, y: p.1, text: text@, color }],
            ),
    {
        self.draw_text(text, p.0, p.1, color);
    }

    pub fn draw_multiline_text(&mut self, lines: &Vec<String>, x: u16, y: u16, color: u8)
        ensures
            final(self).extends(old(self), multiline_text_commands(lines_view(lines@), x, y, color)),
    {
        let ghost all = multiline_text_commands(lines_view(lines@), x, y, color);
        let mut i: usize = 0;
        assert(self.recorded() =~= old(self).recorded() + all.take(0));
        while i < lines.len()
            invariant
                0 <= i <= lines@.len(),
                all == multiline_text_commands(lines_view(lines@), x, y, color),
                self.extends(old(self), all.take(i as int)),
            decreases lines.len() - i,
        {
            let row: u16 = if i > 65535 - y as usize {
                u16::MAX
            } else {
                y + i as u16
            };
            self.draw_text(lines[i].as_str(), x, row, color);
            assert(self.recorded() =~= old(self).recorded() + all.take(i + 1));
            i = i + 1;
        }
        assert(all.take(lines@.len() as int) =~= all);
    }

    pub fn draw_rect(&mut self, rect: &Rect, color_code: u8)
        ensures
            final(self).extends(
                old(self),
                rect_commands(
                    rect.start,
                    (clamp_u16(rect.right()) as u16, clamp_u16(rect.bottom()) as u16),
                    color_code,
                ),
            ),
    {
        self.draw_rect_from_points(rect.start, rect.end(), color_code);
    }

    pub fn draw_rect_from_points(&mut self, lhs: U16Point, rhs: U16Point, color_code: u8)
        ensures
            final(self).extends(old(self), rect_commands(lhs, rhs, color_code)),
    {
        let (x_min, y_min, x_max, y_max) = point_pair_minmax(lhs, rhs);
        let ghost sides = box_side_commands(x_min, x_max, y_min, y_max);
        let ghost head = seq![DrawCommandView::SetColor(color_code)];
        self.set_color(color_code);
        assert(self.recorded() =~= old(self).recorded() + head + sides.take(0));
        let rows: u32 = (y_max - y_min) as u32 + 1;
        let mut k: u32 = 0;
        while k < rows
            invariant
                0 <= k <= rows,
                rows == y_max - y_min + 1,
                x_min <= x_max,
                sides == box_side_commands(x_min, x_max, y_min, y_max),
                self.recorded() == old(self).recorded() + head + sides.take(2 * k),
                self.width == old(self).width,
                self.height == old(self).height,
            decreases rows - k,
        {
            let y: u16 = (y_min as u32 + k) as u16;
            self.draw_text_uncoloured(BOX_VERTICAL_CHAR, x_min, y);
            self.draw_text_uncoloured(BOX_VERTICAL_CHAR, x_max, y);
            assert(self.recorded() =~= old(self).recorded() + head + sides.take(2 * (k + 1)));
            k = k + 1;
        }
        assert(sides.take(2 * rows) =~= sides);
        if x_max - x_min >= 2 {
            let level: String = repeat_str(BOX_HORIZONTAL_CHAR, (x_max - x_min - 1) as usize);
            self.draw_text_uncoloured(level.as_str(), x_min + 1, y_min);
            self.draw_text_uncoloured(level.as_str(), x_min + 1, y_max);
        }
        assert(self.recorded() =~= old(self).recorded() + head + sides + box_level_commands(
            x_min,
            x_max,
            y_min,
            y_max,
        ));
        self.draw_text_uncoloured(BOX_TOP_LEFT_CORNER_CHAR, x_min, y_min);
        self.draw_text_uncoloured(BOX_TOP_RIGTH_CORNER_CHAR, x_max, y_min);
        self.draw_text_uncoloured(BOX_BOTTOM_LEFT_CORNER_CHAR, x_min, y_max);
        self.draw_text_uncoloured(BOX_BOTTOM_RIGTH_CORNER_CHAR, x_max, y_max);
        self.reset_color();
        assert(self.recorded() =~= old(self).recorded() + rect_commands(lhs, rhs, color_code));
    }

    pub fn draw_line(&mut self, line: &Line, color: u8)
        ensures
            final(self).extends(old(self), line_commands(line.start, line.end, color)),
    {
        self.draw_line_from_points(line.start, line.end, color);
    }

    pub fn draw_line_from_points(&mut self, start: U16Point, end: U16Point, color: u8)
        ensures
            final(self).extends(old(self), line_commands(start, end, color)),
    {
        let line = Line { start, end };
        let ghost cells = line_cell_commands(line);
        let ghost head = seq![DrawCommandView::SetColor(color)];
        self.set_color(color);
        let mut points = LinePointsIterator::new(start, end);
        let ghost all = line.spec_points();
        let ghost mut done: int = 0;
        assert(self.recorded() =~= old(self).recorded() + head + cells.take(0));
        assert(all.skip(0) =~= all);
        loop
            invariant
                0 <= done <= all.len(),
                all == line.spec_points(),
                cells == line_cell_commands(line),
                points.remaining() == all.skip(done),
                self.recorded() == old(self).recorded() + head + cells.take(done),
                self.width == old(self).width,
                self.height == old(self).height,
            ensures
                done == all.len(),
            decreases all.len() - done,
        {
            match points.next() {
                Some(p) => {
                    self.draw_text_uncoloured(BLOCK_CHAR, p.0, p.1);
                    proof {
                        assert(all.skip(done)[0] == all[done]);
                        assert(all.skip(done).skip(1) =~= all.skip(done + 1));
                        assert(self.recorded() =~= old(self).recorded() + head + cells.take(
                            done + 1,
                        ));
                        done = done + 1;
                    }
                },
                None => {
                    break ;
                },
            }
        }
        assert(cells.take(done) =~= cells);
        self.draw_text_uncoloured(LINE_CONNECTION_CHAR, start.0, start.1);
        self.draw_text_uncoloured(LINE_CONNECTION_CHAR, end.0, end.1);
        self.reset_color();
        assert(self.recorded() =~= old(self).recorded() + line_commands(start, end, color));
    }
}

} // verus!
