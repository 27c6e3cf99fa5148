//! What a frame of the diagram editor shows, as a list of drawing
//! commands.

use vstd::prelude::*;
use crate::action::{Action, ActionView, Intent, PointerPoint};
use crate::app::{App, action_view, freehands_view};
use crate::app_model::AppView;
use crate::common::{U16Point, clamp_u16};
use crate::gfx::{
    DrawCommandView,
    Gfx,
    line_commands,
    multiline_text_commands,
    rect_commands,
    repeated,
};
use crate::objects::{
    COLOR_COUNT,
    LineObject,
    RectObject,
    TextObject,
    TextObjectView,
    color_code,
    color_name,
    spec_color_code,
    spec_color_name,
};
use crate::scene::{Scene, is_text_editable_at};

verus! {

/// The mark on what the pointer can drag.
pub const DRAG_STR: &'static str = "+";

/// The mark on a text that the pointer can pick up for editing.
pub const EDIT_STR: &'static str = "#";

/// The mark of the pointer, and of the cells of its trace and of strokes.
pub const POINTER_STR: &'static str = "*";

/// The terminal colour code of the background of the status line.
pub const STATUS_BACKGROUND_CODE: u8 = 100;

/// The sequences that `f` gives for 0 up to `n`, one after another.
pub open spec fn concat_first(n: int, f: spec_fn(int) -> Seq<DrawCommandView>) -> Seq<
    DrawCommandView,
>
    decreases n,
{
    if n <= 0 {
        Seq::empty()
    } else {
        concat_first(n - 1, f) + f(n - 1)
    }
}

/// One mark at `p` in the default colour, or none.
pub open spec fn mark_if(shown: bool, mark: Seq<char>, p: U16Point) -> Seq<DrawCommandView> {
    if shown {
        seq![
            DrawCommandView::ColoredTextAt { x: p.0, y: p.1, text: mark, color: spec_color_code(0) },
        ]
    } else {
        Seq::empty()
    }
}

/// The pointer's mark at `p` in the colour with the code `color`.
pub open spec fn pointer_mark(p: U16Point, color: u8) -> DrawCommandView {
    DrawCommandView::ColoredTextAt { x: p.0, y: p.1, text: POINTER_STR@, color }
}

/// A rectangle as it is shown: its border, and the drag mark at the
/// pointer where the pointer is on its top edge or on its resize point.
pub open spec fn rect_shown(r: RectObject, mouse: U16Point) -> Seq<DrawCommandView> {
    rect_commands(
        r.rect.start,
        (clamp_u16(r.rect.right()) as u16, clamp_u16(r.rect.bottom()) as u16),
        spec_color_code(r.color as int),
    ) + mark_if(r.spec_is_drag_point(mouse) || r.spec_is_resize_point(mouse), DRAG_STR@, mouse)
}

/// A line as it is shown: straight or through its bend, and the drag mark
/// at the pointer where the pointer is on one of its ends.
pub open spec fn line_shown(l: LineObject, mouse: U16Point) -> Seq<DrawCommandView> {
    (match l.segment {
        Some(bend) => line_commands(l.line.start, bend, spec_color_code(l.color as int))
            + line_commands(bend, l.line.end, spec_color_code(l.color as int)),
        None => line_commands(l.line.start, l.line.end, spec_color_code(l.color as int)),
    }) + mark_if(l.spec_is_drag_point(mouse), DRAG_STR@, mouse)
}

/// The lines of a text as they are shown, each from where it starts.
pub open spec fn text_object_commands(t: TextObjectView) -> Seq<DrawCommandView> {
    Seq::new(
        t.lines.len(),
        |i: int|
            DrawCommandView::ColoredTextAt {
                x: t.line_start(i).0,
                y: t.line_start(i).1,
                text: t.lines[i],
                color: spec_color_code(t.color as int),
            },
    )
}

/// A text as it is shown: its lines, and the edit mark at the pointer
/// where a click would pick the text up for editing.
pub open spec fn text_shown(
    rects: Seq<RectObject>,
    t: TextObjectView,
    mouse: U16Point,
) -> Seq<DrawCommandView> {
    text_object_commands(t) + mark_if(is_text_editable_at(rects, t, mouse), EDIT_STR@, mouse)
}

/// The pointer's mark on each of `points`, in the colour with the code
/// `color`.
pub open spec fn points_shown(points: Seq<U16Point>, color: u8) -> Seq<DrawCommandView> {
    Seq::new(points.len(), |i: int| pointer_mark(points[i], color))
}

/// The pointer's mark on each cell of a trace.
pub open spec fn trace_shown(trace: Seq<PointerPoint>, color: u8) -> Seq<DrawCommandView> {
    Seq::new(trace.len(), |i: int| pointer_mark(trace[i].pos, color))
}

/// The operation under way as it is shown: what is being drawn as it
/// would be if the button went up now, a text with a cursor behind it, and
/// for every other operation the pointer's mark at the pointer.
pub open spec fn action_shown(action: Option<ActionView>, mouse: U16Point, color: u8) -> Seq<
    DrawCommandView,
> {
    match action {
        Some(ActionView::Rect { start }) => rect_commands(start, mouse, color),
        Some(ActionView::Line { start }) => line_commands(start, mouse, color),
        Some(ActionView::Text { start, editor }) => multiline_text_commands(
            editor.lines,
            start.0,
            start.1,
            color,
        ) + seq![DrawCommandView::Text { text: "_"@ }],
        Some(ActionView::Freehand { points }) => points_shown(points, color),
        Some(_) => seq![pointer_mark(mouse, color)],
        None => Seq::empty(),
    }
}

/// The name of a tool.
pub open spec fn intent_name(intent: Intent) -> Seq<char> {
    match intent {
        Intent::Line => "Line"@,
        Intent::Rect => "Rect"@,
        Intent::Text => "Text"@,
        Intent::Pointer => "Pointer"@,
        Intent::Freehand => "Freehand"@,
    }
}

/// The short name of the operation under way, or a dash.
pub open spec fn action_name(action: Option<ActionView>) -> Seq<char> {
    match action {
        Some(a) => a.short_name(),
        None => "-"@,
    }
}

/// The last row of a terminal with `height` rows.
pub open spec fn last_row(height: u16) -> u16 {
    if height > 0 {
        (height - 1) as u16
    } else {
        0
    }
}

/// A gap of the status line: a blank, a blank on the status background,
/// and what follows it in the terminal's own colour.
pub open spec fn status_gap(next: Seq<char>) -> Seq<DrawCommandView> {
    seq![
        DrawCommandView::Text { text: " "@ },
        DrawCommandView::SetColor(STATUS_BACKGROUND_CODE),
        DrawCommandView::Text { text: " "@ },
        DrawCommandView::ResetColor,
        DrawCommandView::Text { text: next },
    ]
}

/// The status line in the last row: a bar over the whole width, then the
/// selected tool, the operation under way and the selected colour, its
/// name in that colour.
pub open spec fn status_shown(
    intent: Intent,
    action: Option<ActionView>,
    color: usize,
    width: u16,
    height: u16,
) -> Seq<DrawCommandView> {
    seq![
        DrawCommandView::SetColor(STATUS_BACKGROUND_CODE),
        DrawCommandView::TextAt { x: 0, y: last_row(height), text: repeated(" "@, width as nat) },
        DrawCommandView::ResetColor,
        DrawCommandView::TextAt { x: 2, y: last_row(height), text: " Intent: "@ },
        DrawCommandView::Text { text: intent_name(intent) },
    ] + status_gap(" Active: "@) + seq![DrawCommandView::Text { text: action_name(action) }]
        + status_gap(" Color: "@) + seq![
        DrawCommandView::SetColor(spec_color_code(color as int)),
        DrawCommandView::Text { text: spec_color_name(color as int) },
        DrawCommandView::ResetColor,
        DrawCommandView::Text { text: " "@ },
    ]
}

/// The number of cells of the ring that is shown round a click.
pub const CLICK_RING_CELLS: usize = 16;

/// Where cell `i` of the ring round a click lies, from the click: the
/// cells run round a square two cells away, from its upper-left corner to
/// the right.
pub open spec fn click_ring_offset(i: int) -> (int, int) {
    if i <= 4 {
        (i - 2, -2)
    } else if i <= 8 {
        (2, i - 6)
    } else if i <= 12 {
        (10 - i, 2)
    } else {
        (-2, 14 - i)
    }
}

/// The shade with the index `i`, from empty to full.
pub open spec fn click_ring_shade(i: int) -> Seq<char> {
    if i == 0 {
        " "@
    } else if i == 1 {
        "░"@
    } else if i == 2 {
        "▒"@
    } else if i == 3 {
        "▓"@
    } else {
        "▉"@
    }
}

/// The ring round a click at `pos` at the time `now`: its cells go
/// through the shades in turn, one step every sixty milliseconds. A cell
/// beyond the grid is drawn on its edge.
pub open spec fn click_ring_shown(pos: U16Point, now: u128, color: u8) -> Seq<DrawCommandView> {
    Seq::new(
        CLICK_RING_CELLS as nat,
        |i: int|
            DrawCommandView::ColoredTextAt {
                x: clamp_u16(pos.0 + click_ring_offset(i).0) as u16,
                y: clamp_u16(pos.1 + click_ring_offset(i).1) as u16,
                text: click_ring_shade(((now / 60) % 5 + i) % 5),
                color,
            },
    )
}

/// What shows rectangle `i` of the editor.
pub open spec fn rect_drawer(app: AppView) -> spec_fn(int) -> Seq<DrawCommandView> {
    |i: int| rect_shown(app.scene.rectangles[i], app.mouse)
}

/// What shows line `i` of the editor.
pub open spec fn line_drawer(app: AppView) -> spec_fn(int) -> Seq<DrawCommandView> {
    |i: int| line_shown(app.scene.lines[i], app.mouse)
}

/// What shows text `i` of the editor.
pub open spec fn text_drawer(app: AppView) -> spec_fn(int) -> Seq<DrawCommandView> {
    |i: int| text_shown(app.scene.rectangles, app.scene.texts[i], app.mouse)
}

/// What shows stroke `i` of the editor.
pub open spec fn freehand_drawer(app: AppView) -> spec_fn(int) -> Seq<DrawCommandView> {
    |i: int| points_shown(app.freehands[i].points, spec_color_code(app.freehands[i].color as int))
}

/// What shows the ring round click `i` of the editor.
pub open spec fn click_drawer(app: AppView, now: u128) -> spec_fn(int) -> Seq<DrawCommandView> {
    |i: int| click_ring_shown(app.click_trace[i].pos, now, spec_color_code(app.color as int))
}

/// The frame that shows the editor at the time `now` on a terminal of
/// `width` columns and `height` rows: the screen is cleared, then come the
/// rectangles, the lines, the texts, the strokes, the pointer's trace, the
/// operation under way, the status line, and the rings round the clicks.
pub open spec fn frame(app: AppView, width: u16, height: u16, now: u128) -> Seq<DrawCommandView> {
    seq![DrawCommandView::Clear] + concat_first(
        app.scene.rectangles.len() as int,
        rect_drawer(app),
    ) + concat_first(app.scene.lines.len() as int, line_drawer(app)) + concat_first(
        app.scene.texts.len() as int,
        text_drawer(app),
    ) + concat_first(app.freehands.len() as int, freehand_drawer(app)) + trace_shown(
        app.pointer_trace,
        spec_color_code(app.color as int),
    ) + action_shown(app.action, app.mouse, spec_color_code(app.color as int)) + status_shown(
        app.intent,
        app.action,
        app.color,
        width,
        height,
    ) + concat_first(app.click_trace.len() as int, click_drawer(app, now))
}

/// Sequences that are put together can be put together in any grouping.
proof fn lemma_concat_assoc(a: Seq<DrawCommandView>, b: Seq<DrawCommandView>, c: Seq<DrawCommandView>)
    ensures
        (a + b) + c == a + (b + c),
        a + Seq::<DrawCommandView>::empty() == a,
{
    assert((a + b) + c =~= a + (b + c));
    assert(a + Seq::<DrawCommandView>::empty() =~= a);
}

/// The name of a tool.
pub fn intent_to_str(intent: Intent) -> (r: &'static str)
    ensures
        r@ == intent_name(intent),
{
    match intent {
        Intent::Line => "Line",
        Intent::Rect => "Rect",
        Intent::Text => "Text",
        Intent::Pointer => "Pointer",
        Intent::Freehand => "Freehand",
    }
}

/// A coordinate moved by a small offset, kept within the grid.
fn shifted(at: u16, by: i32) -> (r: u16)
    requires
        -2 <= by <= 2,
    ensures
        r as int == clamp_u16(at + by),
{
    crate::common::i32_to_u16_clamped(at as i32 + by)
}

impl TextObject {
    /// Draws the lines of the text, each from where it starts.
    pub fn draw(&self, gfx: &mut Gfx)
        requires
            self.color < COLOR_COUNT,
        ensures
            final(gfx).extends(old(gfx), text_object_commands(self@)),
    {
        let ghost all = text_object_commands(self@);
        let code: u8 = color_code(self.color);
        assert(gfx.recorded() =~= old(gfx).recorded() + all.take(0));
        let mut i: usize = 0;
        while i < self.lines.len()
            invariant
                0 <= i <= self.lines@.len(),
                all == text_object_commands(self@),
                code == spec_color_code(self.color as int),
                gfx.extends(old(gfx), all.take(i as int)),
            decreases self.lines.len() - i,
        {
            let pos: U16Point = self.line_start(i);
            gfx.draw_text(self.lines[i].as_str(), pos.0, pos.1, code);
            assert(gfx.recorded() =~= old(gfx).recorded() + all.take(i + 1));
            i = i + 1;
        }
        assert(all.take(self.lines@.len() as int) =~= all);
    }
}

impl Gfx {
    /// Draws `mark` at `p` in the default colour, if it is to be shown.
    fn draw_mark(&mut self, shown: bool, mark: &str, p: U16Point)
        ensures
            final(self).extends(old(self), mark_if(shown, mark@, p)),
    {
        if shown {
            self.draw_text_at_point(mark, p, color_code(0));
        } else {
            assert(self.recorded() =~= old(self).recorded() + Seq::<DrawCommandView>::empty());
        }
    }

    /// Draws a rectangle of the diagram.
    pub fn draw_rect_object(&mut self, r: &RectObject, mouse: U16Point)
        requires
            r.color < COLOR_COUNT,
        ensures
            final(self).extends(old(self), rect_shown(*r, mouse)),
    {
        self.draw_rect(&r.rect, color_code(r.color));
        let ghost border = self.recorded();
        self.draw_mark(r.is_drag_point(mouse) || r.is_resize_point(mouse), DRAG_STR, mouse);
        proof {
            lemma_concat_assoc(
                old(self).recorded(),
                rect_commands(
                    r.rect.start,
                    (clamp_u16(r.rect.right()) as u16, clamp_u16(r.rect.bottom()) as u16),
                    spec_color_code(r.color as int),
                ),
                mark_if(r.spec_is_drag_point(mouse) || r.spec_is_resize_point(mouse), DRAG_STR@, mouse),
            );
        }
    }

    /// Draws a line of the diagram.
    pub fn draw_line_object(&mut self, l: &LineObject, mouse: U16Point)
        requires
            l.color < COLOR_COUNT,
        ensures
            final(self).extends(old(self), line_shown(*l, mouse)),
    {
        let code: u8 = color_code(l.color);
        let ghost mark = mark_if(l.spec_is_drag_point(mouse), DRAG_STR@, mouse);
        match l.segment {
            Some(bend) => {
                self.draw_line_from_points(l.line.start, bend, code);
                self.draw_line_from_points(bend, l.line.end, code);
                self.draw_mark(l.is_drag_point(mouse), DRAG_STR, mouse);
                proof {
                    lemma_concat_assoc(
                        old(self).recorded(),
                        line_commands(l.line.start, bend, code),
                        line_commands(bend, l.line.end, code),
                    );
                    lemma_concat_assoc(
                        old(self).recorded(),
                        line_commands(l.line.start, bend, code) + line_commands(
                            bend,
                            l.line.end,
                            code,
                        ),
                        mark,
                    );
                }
            },
            None => {
                self.draw_line(&l.line, code);
                self.draw_mark(l.is_drag_point(mouse), DRAG_STR, mouse);
                proof {
                    lemma_concat_assoc(
                        old(self).recorded(),
                        line_commands(l.line.start, l.line.end, code),
                        mark,
                    );
                }
            },
        }
    }

    /// Draws text `index` of a scene.
    pub fn draw_text_object(&mut self, scene: &Scene, index: usize, mouse: U16Point)
        requires
            index < scene@.texts.len(),
            scene@.texts[index as int].color < COLOR_COUNT,
        ensures
            final(self).extends(
                old(self),
                text_shown(scene@.rectangles, scene@.texts[index as int], mouse),
            ),
    {
        scene.texts[index].draw(self);
        self.draw_mark(scene.is_text_editable_at(index, mouse), EDIT_STR, mouse);
        proof {
            lemma_concat_assoc(
                old(self).recorded(),
                text_object_commands(scene@.texts[index as int]),
                mark_if(
                    is_text_editable_at(scene@.rectangles, scene@.texts[index as int], mouse),
                    EDIT_STR@,
                    mouse,
                ),
            );
        }
    }

    /// Draws the pointer's mark on each of `points`.
    pub fn draw_points(&mut self, points: &Vec<U16Point>, color: u8)
        ensures
            final(self).extends(old(self), points_shown(points@, color)),
    {
        let ghost all = points_shown(points@, color);
        assert(self.recorded() =~= old(self).recorded() + all.take(0));
        let mut i: usize = 0;
        while i < points.len()
            invariant
                0 <= i <= points@.len(),
                all == points_shown(points@, color),
                self.extends(old(self), all.take(i as int)),
            decreases points.len() - i,
        {
            let p: U16Point = points[i];
            self.draw_text(POINTER_STR, p.0, p.1, color);
            assert(self.recorded() =~= old(self).recorded() + all.take(i + 1));
            i = i + 1;
        }
        assert(all.take(points@.len() as int) =~= all);
    }

    /// Draws the pointer's mark on each cell of a trace.
    pub fn draw_trace(&mut self, trace: &Vec<PointerPoint>, color: u8)
        ensures
            final(self).extends(old(self), trace_shown(trace@, color)),
    {
        let ghost all = trace_shown(trace@, color);
        assert(self.recorded() =~= old(self).recorded() + all.take(0));
        let mut i: usize = 0;
        while i < trace.len()
            invariant
                0 <= i <= trace@.len(),
                all == trace_shown(trace@, color),
                self.extends(old(self), all.take(i as int)),
            decreases trace.len() - i,
        {
            let p: U16Point = trace[i].pos;
            self.draw_text(POINTER_STR, p.0, p.1, color);
            assert(self.recorded() =~= old(self).recorded() + all.take(i + 1));
            i = i + 1;
        }
        assert(all.take(trace@.len() as int) =~= all);
    }

    /// Draws the operation under way.
    pub fn draw_action(&mut self, action: &Option<Action>, mouse: U16Point, color: u8)
        ensures
            final(self).extends(old(self), action_shown(action_view(*action), mouse, color)),
    {
        match action {
            Some(Action::Rect(a)) => {
                self.draw_rect_from_points(a.start, mouse, color);
            },
            Some(Action::Line(a)) => {
                self.draw_line_from_points(a.start, mouse, color);
            },
            Some(Action::Text(a)) => {
                self.draw_multiline_text(a.editor.lines(), a.start.0, a.start.1, color);
                self.draw_text_to_current_pos("_");
                proof {
                    lemma_concat_assoc(
                        old(self).recorded(),
                        multiline_text_commands(a.editor@.lines, a.start.0, a.start.1, color),
                        seq![DrawCommandView::Text { text: "_"@ }],
                    );
                }
            },
            Some(Action::Freehand(a)) => {
                self.draw_points(&a.points, color);
            },
            Some(_) => {
                self.draw_text(POINTER_STR, mouse.0, mouse.1, color);
            },
            None => {
                assert(self.recorded() =~= old(self).recorded() + Seq::<DrawCommandView>::empty());
            },
        }
    }

    /// Draws a gap of the status line and the text that follows it.
    fn draw_status_gap(&mut self, next: &str)
        ensures
            final(self).extends(old(self), status_gap(next@)),
    {
        self.draw_text_to_current_pos(" ");
        self.set_color(STATUS_BACKGROUND_CODE);
        self.draw_text_to_current_pos(" ");
        self.reset_color();
        self.draw_text_to_current_pos(next);
        assert(self.recorded() =~= old(self).recorded() + status_gap(next@));
    }

    /// Draws the ring round a click.
    pub fn draw_click_ring(&mut self, pos: U16Point, now_ms: u128, color: u8)
        ensures
            final(self).extends(old(self), click_ring_shown(pos, now_ms, color)),
    {
        let ghost all = click_ring_shown(pos, now_ms, color);
        let first_shade: usize = ((now_ms / 60) % 5) as usize;
        assert(self.recorded() =~= old(self).recorded() + all.take(0));
        let mut i: usize = 0;
        while i < CLICK_RING_CELLS
            invariant
                0 <= i <= CLICK_RING_CELLS,
                all == click_ring_shown(pos, now_ms, color),
                first_shade == (now_ms / 60) % 5,
                self.extends(old(self), all.take(i as int)),
            decreases CLICK_RING_CELLS - i,
        {
            let step: i32 = i as i32;
            let offset: (i32, i32) = if i <= 4 {
                (step - 2, -2)
            } else if i <= 8 {
                (2, step - 6)
            } else if i <= 12 {
                (10 - step, 2)
            } else {
                (-2, 14 - step)
            };
            let shade: &'static str = match (first_shade + i) % 5 {
                0 => " ",
                1 => "░",
                2 => "▒",
                3 => "▓",
                _ => "▉",
            };
            self.draw_text(shade, shifted(pos.0, offset.0), shifted(pos.1, offset.1), color);
            assert(self.recorded() =~= old(self).recorded() + all.take(i + 1));
            i = i + 1;
        }
        assert(all.take(CLICK_RING_CELLS as int) =~= all);
    }
}

impl Gfx {
    /// Draws the status line.
    pub fn draw_status(&mut self, intent: Intent, action: &Option<Action>, color: usize)
        requires
            color < COLOR_COUNT,
        ensures
            final(self).extends(
                old(self),
                status_shown(intent, action_view(*action), color, old(self).width, old(self).height),
            ),
    {
        let row: u16 = if self.height > 0 {
            self.height - 1
        } else {
            0
        };
        let bar: String = crate::gfx::repeat_str(" ", self.width as usize);
        let active: &'static str = match action {
            Some(a) => a.to_string_short(),
            None => "-",
        };
        self.set_color(STATUS_BACKGROUND_CODE);
        self.draw_text_uncoloured(bar.as_str(), 0, row);
        self.reset_color();
        self.draw_text_uncoloured(" Intent: ", 2, row);
        self.draw_text_to_current_pos(intent_to_str(intent));
        self.draw_status_gap(" Active: ");
        self.draw_text_to_current_pos(active);
        self.draw_status_gap(" Color: ");
        self.set_color(color_code(color));
        self.draw_text_to_current_pos(color_name(color));
        self.reset_color();
        self.draw_text_to_current_pos(" ");
        assert(self.recorded() =~= old(self).recorded() + status_shown(
            intent,
            action_view(*action),
            color,
            old(self).width,
            old(self).height,
        ));
    }
}

impl App {
    /// Nothing of the editor depends on the terminal: there is nothing to
    /// set up.
    pub fn reset(&mut self, gfx: &mut Gfx)
        ensures
            final(self)@ == old(self)@,
            final(gfx).extends(old(gfx), Seq::empty()),
    {
        assert(gfx.recorded() =~= old(gfx).recorded() + Seq::<DrawCommandView>::empty());
    }

    /// Draws the frame that shows the editor at the time `now_ms`.
    pub fn draw(&self, gfx: &mut Gfx, now_ms: u128)
        requires
            self@.wf(),
        ensures
            final(gfx).extends(
                old(gfx),
                frame(self@, old(gfx).width, old(gfx).height, now_ms),
            ),
    {
        let scene: &Scene = self.scene();
        let mouse: U16Point = self.current_mouse_pos();
        let code: u8 = color_code(self.current_color());
        let ghost base = old(gfx).recorded();
        gfx.clear_screen();

        let ghost shown = seq![DrawCommandView::Clear];
        let ghost draw_rect = rect_drawer(self@);
        assert(gfx.recorded() =~= base + (shown + concat_first(0, draw_rect)));
        let mut i: usize = 0;
        while i < scene.rectangles.len()
            invariant
                0 <= i <= scene.rectangles@.len(),
                self@.wf(),
                scene@ == self@.scene,
                mouse == self@.mouse,
                draw_rect == rect_drawer(self@),
                gfx.extends(old(gfx), shown + concat_first(i as int, draw_rect)),
                base == old(gfx).recorded(),
            decreases scene.rectangles.len() - i,
        {
            gfx.draw_rect_object(&scene.rectangles[i], mouse);
            assert(gfx.recorded() =~= base + (shown + concat_first(i + 1, draw_rect)));
            i = i + 1;
        }

        let ghost shown = shown + concat_first(scene.rectangles@.len() as int, draw_rect);
        let ghost draw_line = line_drawer(self@);
        assert(gfx.recorded() =~= base + (shown + concat_first(0, draw_line)));
        let mut i: usize = 0;
        while i < scene.lines.len()
            invariant
                0 <= i <= scene.lines@.len(),
                self@.wf(),
                scene@ == self@.scene,
                mouse == self@.mouse,
                draw_line == line_drawer(self@),
                gfx.extends(old(gfx), shown + concat_first(i as int, draw_line)),
                base == old(gfx).recorded(),
            decreases scene.lines.len() - i,
        {
            gfx.draw_line_object(&scene.lines[i], mouse);
            assert(gfx.recorded() =~= base + (shown + concat_first(i + 1, draw_line)));
            i = i + 1;
        }

        let ghost shown = shown + concat_first(scene.lines@.len() as int, draw_line);
        let ghost draw_text = text_drawer(self@);
        assert(gfx.recorded() =~= base + (shown + concat_first(0, draw_text)));
        let mut i: usize = 0;
        while i < scene.texts.len()
            invariant
                0 <= i <= scene.texts@.len(),
                self@.wf(),
                scene@ == self@.scene,
                mouse == self@.mouse,
                draw_text == text_drawer(self@),
                gfx.extends(old(gfx), shown + concat_first(i as int, draw_text)),
                base == old(gfx).recorded(),
            decreases scene.texts.len() - i,
        {
            gfx.draw_text_object(scene, i, mouse);
            assert(gfx.recorded() =~= base + (shown + concat_first(i + 1, draw_text)));
            i = i + 1;
        }

        let ghost shown = shown + concat_first(scene@.texts.len() as int, draw_text);
        let freehands = self.freehands();
        let ghost draw_stroke = freehand_drawer(self@);
        assert(gfx.recorded() =~= base + (shown + concat_first(0, draw_stroke)));
        let mut i: usize = 0;
        while i < freehands.len()
            invariant
                0 <= i <= freehands@.len(),
                self@.wf(),
                freehands_view(freehands@) == self@.freehands,
                draw_stroke == freehand_drawer(self@),
                gfx.extends(old(gfx), shown + concat_first(i as int, draw_stroke)),
                base == old(gfx).recorded(),
            decreases freehands.len() - i,
        {
            assert(freehands@[i as int]@ == self@.freehands[i as int]);
            gfx.draw_points(&freehands[i].points, color_code(freehands[i].color));
            assert(gfx.recorded() =~= base + (shown + concat_first(i + 1, draw_stroke)));
            i = i + 1;
        }

        let ghost shown = shown + concat_first(freehands@.len() as int, draw_stroke);
        gfx.draw_trace(self.pointer_trace(), code);
        gfx.draw_action(self.action(), mouse, code);
        gfx.draw_status(self.intent(), self.action(), self.current_color());
        let ghost shown = shown + trace_shown(self@.pointer_trace, code) + action_shown(
            self@.action,
            mouse,
            code,
        ) + status_shown(
            self@.intent,
            self@.action,
            self@.color,
            old(gfx).width,
            old(gfx).height,
        );
        let clicks = self.click_trace();
        let ghost draw_click = click_drawer(self@, now_ms);
        assert(gfx.recorded() =~= base + (shown + concat_first(0, draw_click)));
        let mut i: usize = 0;
        while i < clicks.len()
            invariant
                0 <= i <= clicks@.len(),
                clicks@ == self@.click_trace,
                code == spec_color_code(self@.color as int),
                draw_click == click_drawer(self@, now_ms),
                gfx.extends(old(gfx), shown + concat_first(i as int, draw_click)),
                base == old(gfx).recorded(),
            decreases clicks.len() - i,
        {
            gfx.draw_click_ring(clicks[i].pos, now_ms, code);
            assert(gfx.recorded() =~= base + (shown + concat_first(i + 1, draw_click)));
            i = i + 1;
        }
    }
}

} // verus!
