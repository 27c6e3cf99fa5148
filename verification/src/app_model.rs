//! The state of the diagram editor and what each event makes of it, as
//! mathematics: the executable editor is proved to follow this model.

use vstd::prelude::*;
use crate::action::{ActionView, Intent, PointerPoint};
use crate::common::{U16Point, clamp_u16};
use crate::event_group::{Event, KeyCode, KeyEvent, MouseButton, MouseEventKind, mouse_pos};
use crate::line::Line;
use crate::objects::{COLOR_COUNT, FreehandView, LineObject, RectObject, TextObjectView};
use crate::rect::Rect;
use crate::scene::{
    SceneView,
    anchor_at,
    anchor_index,
    first_true,
    is_anchor_index,
    lemma_first_true_sound,
    lemma_rect_found_by_id,
    line_followed,
    line_id_hits,
    line_on_hits,
    rect_id_hits,
    text_followed,
    text_id_hits,
    text_on_hits,
    header_hits,
    line_end_hits,
    line_start_hits,
    resize_hits,
    text_edit_hits,
};
use crate::text_editor::TextEditorView;

verus! {

/// How long a cell of the pointer's trace stays, in milliseconds.
pub const TRACE_LIFETIME_MS: u128 = 2000;

/// The time at which a trace cell made at `now` goes.
pub open spec fn deadline_after(now: u128) -> u128 {
    if now + TRACE_LIFETIME_MS > u128::MAX {
        u128::MAX
    } else {
        (now + TRACE_LIFETIME_MS) as u128
    }
}

/// A trace without the cells at its end whose time is over. The newest
/// cell is the first.
pub open spec fn trace_expired(trace: Seq<PointerPoint>, now: u128) -> Seq<PointerPoint>
    decreases trace.len(),
{
    if trace.len() > 0 && trace.last().deadline < now {
        trace_expired(trace.drop_last(), now)
    } else {
        trace
    }
}

/// Whether the identifiers of `rects` grow from each rectangle to the next
/// and stay within `bound`, and every colour is one of the palette.
pub open spec fn rects_wf(rects: Seq<RectObject>, bound: u64) -> bool {
    &&& forall|i: int, j: int|
        0 <= i < j < rects.len() ==> (#[trigger] rects[i]).id < (#[trigger] rects[j]).id
    &&& forall|i: int|
        0 <= i < rects.len() ==> (#[trigger] rects[i]).id <= bound && rects[i].color < COLOR_COUNT
}

/// Whether the identifiers of `lines` grow from each line to the next and
/// stay within `bound`, and every colour is one of the palette.
pub open spec fn lines_wf(lines: Seq<LineObject>, bound: u64) -> bool {
    &&& forall|i: int, j: int|
        0 <= i < j < lines.len() ==> (#[trigger] lines[i]).id < (#[trigger] lines[j]).id
    &&& forall|i: int|
        0 <= i < lines.len() ==> (#[trigger] lines[i]).id <= bound && lines[i].color < COLOR_COUNT
}

/// Whether the identifiers of `texts` grow from each text to the next and
/// stay within `bound`, and every colour is one of the palette.
pub open spec fn texts_wf(texts: Seq<TextObjectView>, bound: u64) -> bool {
    &&& forall|i: int, j: int|
        0 <= i < j < texts.len() ==> (#[trigger] texts[i]).id < (#[trigger] texts[j]).id
    &&& forall|i: int|
        0 <= i < texts.len() ==> (#[trigger] texts[i]).id <= bound && texts[i].color < COLOR_COUNT
}

/// The tool that the key `c` selects, if it selects one.
pub open spec fn intent_of_key(c: char) -> Option<Intent> {
    if c == 'r' {
        Some(Intent::Rect)
    } else if c == 'l' {
        Some(Intent::Line)
    } else if c == 't' {
        Some(Intent::Text)
    } else if c == 'p' {
        Some(Intent::Pointer)
    } else if c == 'f' {
        Some(Intent::Freehand)
    } else {
        None
    }
}

/// The colour that the key `c` selects, if it is a digit.
pub open spec fn color_of_key(c: char) -> Option<usize> {
    if '0' <= c <= '9' {
        Some((c as u32 - '0' as u32) as usize)
    } else {
        None
    }
}

/// What the editor holds.
pub struct AppView {
    /// The identifier that was given out last.
    pub id_provider: u64,
    /// The operation under way, if any.
    pub action: Option<ActionView>,
    /// The tool that is selected.
    pub intent: Intent,
    /// Where the pointer was seen last.
    pub mouse: U16Point,
    /// The colour that is selected.
    pub color: usize,
    pub scene: SceneView,
    /// The cells that the pointer passed of late, the newest first.
    pub pointer_trace: Seq<PointerPoint>,
    /// The places of the last clicks with the pointer tool, the newest
    /// first.
    pub click_trace: Seq<PointerPoint>,
    pub freehands: Seq<FreehandView>,
}

impl AppView {
    /// The editor at its start: an empty scene, the rectangle tool, the
    /// default colour, nothing under way.
    pub open spec fn initial() -> AppView {
        AppView {
            id_provider: 0,
            action: None,
            intent: Intent::Rect,
            mouse: (0, 0),
            color: 0,
            scene: SceneView { rectangles: Seq::empty(), lines: Seq::empty(), texts: Seq::empty() },
            pointer_trace: Seq::empty(),
            click_trace: Seq::empty(),
            freehands: Seq::empty(),
        }
    }

    /// What holds of the editor at all times: no identifier is used twice
    /// or lies beyond the one given out last, every colour is one of the
    /// palette, and the operation under way has what it needs.
    pub open spec fn wf(self) -> bool {
        &&& rects_wf(self.scene.rectangles, self.id_provider)
        &&& lines_wf(self.scene.lines, self.id_provider)
        &&& texts_wf(self.scene.texts, self.id_provider)
        &&& self.color < COLOR_COUNT
        &&& forall|i: int|
            0 <= i < self.freehands.len() ==> (#[trigger] self.freehands[i]).color < COLOR_COUNT
        &&& match self.action {
            Some(a) => a.wf(),
            None => true,
        }
    }

    /// The identifier that the next new object gets.
    pub open spec fn next_id(self) -> u64 {
        (self.id_provider + 1) as u64
    }

    /// The editor after the pointer was seen at `p`.
    pub open spec fn pointer_at(self, p: U16Point) -> AppView {
        AppView { mouse: p, ..self }
    }

    /// The editor after the selected tool was started at `start`. While an
    /// operation is under way nothing is started and nothing changes.
    pub open spec fn start_action(self, start: U16Point, now: u128) -> AppView {
        if self.action.is_some() {
            self
        } else {
            match self.intent {
                Intent::Line => AppView { action: Some(ActionView::Line { start }), ..self },
                Intent::Rect => AppView { action: Some(ActionView::Rect { start }), ..self },
                Intent::Text => AppView {
                    action: Some(ActionView::Text { start, editor: TextEditorView::blank() }),
                    ..self
                },
                Intent::Pointer => AppView {
                    action: Some(ActionView::Pointer),
                    click_trace: seq![
                        PointerPoint { pos: self.mouse, deadline: deadline_after(now) },
                    ] + self.click_trace,
                    ..self
                },
                Intent::Freehand => AppView {
                    action: Some(ActionView::Freehand { points: seq![self.mouse] }),
                    ..self
                },
            }
        }
    }

    /// The editor after the left button went down with the pointer event at
    /// `at`. While an operation is under way nothing changes. Else the first
    /// of these that finds something under the pointer decides, and the
    /// first object that it finds: the resize point of a rectangle, the
    /// start of a line, the end of a line, a text to edit, the top edge of a
    /// rectangle. Where none finds anything the selected tool starts at
    /// `at`.
    pub open spec fn pointer_down(self, at: U16Point, now: u128) -> AppView {
        let rects = self.scene.rectangles;
        let lines = self.scene.lines;
        let texts = self.scene.texts;
        if self.action.is_some() {
            self
        } else {
            match first_true(resize_hits(rects, self.mouse)) {
                Some(i) => self.resize_begun(i),
                None => match first_true(line_start_hits(lines, self.mouse)) {
                    Some(i) => self.line_start_grabbed(i),
                    None => match first_true(line_end_hits(lines, self.mouse)) {
                        Some(i) => self.line_end_grabbed(i),
                        None => match first_true(text_edit_hits(rects, texts, self.mouse)) {
                            Some(i) => self.text_edit_begun(i),
                            None => match first_true(header_hits(rects, self.mouse)) {
                                Some(i) => self.rect_drag_begun(i),
                                None => self.start_action(at, now),
                            },
                        },
                    },
                },
            }
        }
    }

    /// The editor once rectangle `i` is being resized: the corner that
    /// stays is its start.
    pub open spec fn resize_begun(self, i: int) -> AppView {
        AppView {
            action: Some(
                ActionView::ResizeRectangle {
                    rectangle_id: self.scene.rectangles[i].id,
                    orig_start: self.scene.rectangles[i].rect.start,
                },
            ),
            ..self
        }
    }

    /// The editor once the start of line `i` is being dragged: the start
    /// loses its anchor.
    pub open spec fn line_start_grabbed(self, i: int) -> AppView {
        AppView {
            action: Some(ActionView::DragLineStart { line_id: self.scene.lines[i].id }),
            scene: SceneView {
                lines: self.scene.lines.update(
                    i,
                    LineObject { start_anchor_rect_id: None, ..self.scene.lines[i] },
                ),
                ..self.scene
            },
            ..self
        }
    }

    /// The editor once the end of line `i` is being dragged: the end loses
    /// its anchor.
    pub open spec fn line_end_grabbed(self, i: int) -> AppView {
        AppView {
            action: Some(ActionView::DragLineEnd { line_id: self.scene.lines[i].id }),
            scene: SceneView {
                lines: self.scene.lines.update(
                    i,
                    LineObject { end_anchor_rect_id: None, ..self.scene.lines[i] },
                ),
                ..self.scene
            },
            ..self
        }
    }

    /// The editor once text `i` is being edited: the text leaves the scene
    /// and its lines are in the text editor, until the edit is ended.
    pub open spec fn text_edit_begun(self, i: int) -> AppView {
        AppView {
            action: Some(
                ActionView::Text {
                    start: self.scene.texts[i].start,
                    editor: TextEditorView::over(self.scene.texts[i].lines),
                },
            ),
            scene: SceneView { texts: self.scene.texts.remove(i), ..self.scene },
            ..self
        }
    }

    /// The editor once rectangle `i` is being dragged: the offset leads
    /// from the start of the rectangle to the pointer.
    pub open spec fn rect_drag_begun(self, i: int) -> AppView {
        AppView {
            action: Some(
                ActionView::DragRectangle {
                    rectangle_id: self.scene.rectangles[i].id,
                    offset: (
                        (self.mouse.0 - self.scene.rectangles[i].rect.start.0) as i32,
                        (self.mouse.1 - self.scene.rectangles[i].rect.start.1) as i32,
                    ),
                },
            ),
            ..self
        }
    }

    /// The editor after the middle button went down: a text is begun at
    /// the pointer, unless an operation is under way.
    pub open spec fn middle_down(self) -> AppView {
        if self.action.is_some() {
            self
        } else {
            AppView {
                action: Some(
                    ActionView::Text { start: self.mouse, editor: TextEditorView::blank() },
                ),
                ..self
            }
        }
    }

    /// The editor after the left button went up. A line or a rectangle
    /// that was being drawn becomes an object with the next identifier; the
    /// ends of a new line, and the end of a line that was dragged, are
    /// anchored to the rectangle under them. Editing or dragging a text
    /// goes on.
    pub open spec fn pointer_up(self) -> AppView {
        match self.action {
            Some(ActionView::Line { start }) => AppView {
                id_provider: self.next_id(),
                action: None,
                scene: SceneView {
                    lines: self.scene.lines.push(
                        LineObject {
                            id: self.next_id(),
                            line: Line { start, end: self.mouse },
                            start_anchor_rect_id: anchor_at(self.scene.rectangles, start),
                            end_anchor_rect_id: anchor_at(self.scene.rectangles, self.mouse),
                            color: self.color,
                            segment: None,
                        },
                    ),
                    ..self.scene
                },
                ..self
            },
            Some(ActionView::Rect { start }) => AppView {
                id_provider: self.next_id(),
                action: None,
                scene: SceneView {
                    rectangles: self.scene.rectangles.push(
                        RectObject {
                            id: self.next_id(),
                            color: self.color,
                            rect: Rect::spec_from_points(start, self.mouse),
                        },
                    ),
                    ..self.scene
                },
                ..self
            },
            Some(ActionView::DragLineStart { line_id }) => AppView {
                action: None,
                scene: self.scene.start_anchor_resolved(line_id),
                ..self
            },
            Some(ActionView::DragLineEnd { line_id }) => AppView {
                action: None,
                scene: self.scene.end_anchor_resolved(line_id),
                ..self
            },
            Some(ActionView::Freehand { points }) => AppView {
                action: None,
                freehands: self.freehands.push(FreehandView { points, color: self.color }),
                ..self
            },
            Some(ActionView::DragRectangle { .. }) | Some(ActionView::ResizeRectangle { .. }) | Some(
                ActionView::Pointer,
            ) => AppView { action: None, ..self },
            Some(ActionView::Text { .. }) | Some(ActionView::DragText { .. }) | None => self,
        }
    }

    /// The editor after the text that was being edited at `start` with
    /// `editor` became an object: it gets the next identifier and is
    /// anchored to the rectangle under its start.
    pub open spec fn text_committed(self, start: U16Point, editor: TextEditorView) -> AppView {
        AppView {
            id_provider: self.next_id(),
            action: None,
            scene: SceneView {
                texts: self.scene.texts.push(
                    TextObjectView {
                        id: self.next_id(),
                        start,
                        lines: editor.lines,
                        anchor_rect_id: anchor_at(self.scene.rectangles, start),
                        color: self.color,
                    },
                ),
                ..self.scene
            },
            ..self
        }
    }

    /// The editor after the text edit was ended. There is a text edit to
    /// end only while a text is being edited.
    pub open spec fn end_text_mode(self) -> AppView {
        match self.action {
            Some(ActionView::Text { start, editor }) => self.text_committed(start, editor),
            _ => self,
        }
    }

    /// The editor after a key was pressed while no text was being edited:
    /// a letter selects a tool, a digit a colour, and Delete deletes one
    /// object under the pointer.
    pub open spec fn key_pressed_idle(self, code: KeyCode) -> AppView {
        match code {
            KeyCode::Char(c) => match intent_of_key(c) {
                Some(intent) => AppView { intent, ..self },
                None => match color_of_key(c) {
                    Some(color) => AppView { color, ..self },
                    None => self,
                },
            },
            KeyCode::Delete => AppView {
                scene: self.scene.deleted_under_point(self.mouse),
                ..self
            },
            _ => self,
        }
    }

    /// The editor after a key was pressed. While a text is being edited,
    /// Enter without Alt ends the edit and every other key goes to the text
    /// editor.
    pub open spec fn key_pressed(self, key: KeyEvent) -> AppView {
        match self.action {
            Some(ActionView::Text { start, editor }) => if key.spec_is_enter_without_alt() {
                self.text_committed(start, editor)
            } else {
                AppView {
                    action: Some(ActionView::Text { start, editor: editor.edited(key) }),
                    ..self
                }
            },
            _ => self.key_pressed_idle(key.code),
        }
    }

    /// Where a rectangle that is dragged with `offset` starts while the
    /// pointer is where it is: at the pointer less the offset, no further
    /// left or up than the first column and row of the grid, no further
    /// right or down than its last.
    pub open spec fn dragged_start(self, offset: (i32, i32)) -> U16Point {
        (
            clamp_u16(self.mouse.0 - offset.0) as u16,
            clamp_u16(self.mouse.1 - offset.1) as u16,
        )
    }

    /// The editor after the operation under way was carried on to where
    /// the pointer is now.
    pub open spec fn action_applied(self, now: u128) -> AppView {
        match self.action {
            Some(ActionView::DragRectangle { rectangle_id, offset }) => AppView {
                scene: self.scene.rect_moved(rectangle_id, self.dragged_start(offset)),
                ..self
            },
            Some(ActionView::ResizeRectangle { rectangle_id, orig_start }) => AppView {
                scene: self.scene.rect_resized(rectangle_id, orig_start, self.mouse),
                ..self
            },
            Some(ActionView::DragLineStart { line_id }) => AppView {
                scene: self.scene.line_start_moved(line_id, self.mouse),
                ..self
            },
            Some(ActionView::DragLineEnd { line_id }) => AppView {
                scene: self.scene.line_end_moved(line_id, self.mouse),
                ..self
            },
            Some(ActionView::DragText { text_id }) => AppView {
                scene: self.scene.text_moved(text_id, self.mouse),
                ..self
            },
            Some(ActionView::Pointer) => if self.pointer_trace.len() > 0
                && self.pointer_trace[0].pos == self.mouse {
                self
            } else {
                AppView {
                    pointer_trace: seq![
                        PointerPoint { pos: self.mouse, deadline: deadline_after(now) },
                    ] + self.pointer_trace,
                    ..self
                }
            },
            Some(ActionView::Freehand { points }) => if points.len() > 0 && points.last()
                != self.mouse {
                AppView {
                    action: Some(
                        ActionView::Freehand {
                            points: points + (Line {
                                start: points.last(),
                                end: self.mouse,
                            }).spec_points().skip(1),
                        },
                    ),
                    ..self
                }
            } else {
                self
            },
            _ => self,
        }
    }

    /// The text that is being dragged, if one is.
    pub open spec fn dragged_text(self) -> Option<u64> {
        match self.action {
            Some(ActionView::DragText { text_id }) => Some(text_id),
            _ => None,
        }
    }

    /// The editor after one tick at the time `now`: the operation under
    /// way is carried on, lines and texts follow the rectangles that they
    /// are anchored to, and trace cells whose time is over go.
    pub open spec fn ticked(self, now: u128) -> AppView {
        let applied = self.action_applied(now);
        AppView {
            scene: applied.scene.lines_followed().texts_followed(applied.dragged_text()),
            pointer_trace: trace_expired(applied.pointer_trace, now),
            click_trace: trace_expired(applied.click_trace, now),
            ..applied
        }
    }

    /// The editor after one input event.
    pub open spec fn handled(self, e: Event, now: u128) -> AppView {
        match e {
            Event::Mouse(m) => match m.kind {
                MouseEventKind::Down(MouseButton::Left) => self.pointer_down((m.column, m.row), now),
                MouseEventKind::Up(MouseButton::Left) => self.pointer_up(),
                MouseEventKind::Down(MouseButton::Middle) => self.middle_down(),
                _ => self,
            },
            Event::Key(k) => if k.pressed {
                self.key_pressed(k)
            } else {
                self
            },
            _ => self,
        }
    }

    /// The editor after the first `n` of `events`, in their order.
    pub open spec fn handled_first(self, events: Seq<Event>, n: int, now: u128) -> AppView
        decreases n,
    {
        if n <= 0 {
            self
        } else {
            self.handled_first(events, n - 1, now).handled(events[n - 1], now)
        }
    }

    /// The position of the last pointer event of `events`, or `fallback`
    /// where there is none.
    pub open spec fn last_pointer(events: Seq<Event>, fallback: U16Point) -> U16Point
        decreases events.len(),
    {
        if events.len() == 0 {
            fallback
        } else {
            match mouse_pos(events.last()) {
                Some(p) => p,
                None => Self::last_pointer(events.drop_last(), fallback),
            }
        }
    }

    /// The editor after the events of one tick: the pointer is taken to be
    /// where the last pointer event of all saw it, the events are handled in
    /// their order, and the tick is made.
    pub open spec fn updated(self, events: Seq<Event>, now: u128) -> AppView {
        self.pointer_at(Self::last_pointer(events, self.mouse)).handled_first(
            events,
            events.len() as int,
            now,
        ).ticked(now)
    }
}

/// A text editor that holds the row it edits still does after any key.
pub proof fn lemma_edited_wf(editor: TextEditorView, key: KeyEvent)
    requires
        editor.wf(),
    ensures
        editor.edited(key).wf(),
{
}

/// What the pointed-at rectangle is anchored to is one of the rectangles.
pub proof fn lemma_anchor_index_in_range(rects: Seq<RectObject>, p: U16Point)
    ensures
        anchor_index(rects, p).is_some() ==> is_anchor_index(
            rects,
            p,
            anchor_index(rects, p).unwrap(),
        ),
{
}

/// Deleting an object leaves the editor as it has to be.
pub proof fn lemma_deleted_wf(s: AppView, p: U16Point)
    requires
        s.wf(),
    ensures
        (AppView { scene: s.scene.deleted_under_point(p), ..s }).wf(),
        s.scene.deleted_under_point(p).rectangles.len() + s.scene.deleted_under_point(
            p,
        ).lines.len() + s.scene.deleted_under_point(p).texts.len() + 1 >= s.scene.rectangles.len()
            + s.scene.lines.len() + s.scene.texts.len(),
{
    lemma_first_true_sound(text_on_hits(s.scene.texts, p));
    lemma_first_true_sound(line_on_hits(s.scene.lines, p));
    lemma_anchor_index_in_range(s.scene.rectangles, p);
}

/// A press of the left button leaves the editor as it has to be, and
/// gives out no identifier.
pub proof fn lemma_pointer_down_wf(s: AppView, at: U16Point, now: u128)
    requires
        s.wf(),
    ensures
        s.pointer_down(at, now).wf(),
        s.pointer_down(at, now).id_provider == s.id_provider,
{
    let rects = s.scene.rectangles;
    let lines = s.scene.lines;
    let texts = s.scene.texts;
    lemma_first_true_sound(resize_hits(rects, s.mouse));
    lemma_first_true_sound(line_start_hits(lines, s.mouse));
    lemma_first_true_sound(line_end_hits(lines, s.mouse));
    lemma_first_true_sound(text_edit_hits(rects, texts, s.mouse));
    lemma_first_true_sound(header_hits(rects, s.mouse));
}

/// A press of the middle button leaves the editor as it has to be.
pub proof fn lemma_middle_down_wf(s: AppView)
    requires
        s.wf(),
    ensures
        s.middle_down().wf(),
        s.middle_down().id_provider == s.id_provider,
{
}

/// A release of the left button leaves the editor as it has to be, and
/// gives out one identifier at most.
pub proof fn lemma_pointer_up_wf(s: AppView)
    requires
        s.wf(),
        s.id_provider < u64::MAX,
    ensures
        s.pointer_up().wf(),
        s.id_provider <= s.pointer_up().id_provider <= s.id_provider + 1,
{
    lemma_first_true_sound(line_id_hits(s.scene.lines, s.action.unwrap()->DragLineStart_line_id));
    lemma_first_true_sound(line_id_hits(s.scene.lines, s.action.unwrap()->DragLineEnd_line_id));
}

/// A text that becomes an object leaves the editor as it has to be.
pub proof fn lemma_text_committed_wf(s: AppView, start: U16Point, editor: TextEditorView)
    requires
        s.wf(),
        s.id_provider < u64::MAX,
    ensures
        s.text_committed(start, editor).wf(),
        s.text_committed(start, editor).id_provider == s.id_provider + 1,
{
}

/// A key leaves the editor as it has to be, and gives out one identifier
/// at most.
pub proof fn lemma_key_pressed_wf(s: AppView, key: KeyEvent)
    requires
        s.wf(),
        s.id_provider < u64::MAX,
    ensures
        s.key_pressed(key).wf(),
        s.id_provider <= s.key_pressed(key).id_provider <= s.id_provider + 1,
{
    match s.action {
        Some(ActionView::Text { start, editor }) => {
            lemma_text_committed_wf(s, start, editor);
            lemma_edited_wf(editor, key);
        },
        _ => {
            lemma_deleted_wf(s, s.mouse);
        },
    }
}

/// Carrying on the operation under way leaves the editor as it has to be.
pub proof fn lemma_action_applied_wf(s: AppView, now: u128)
    requires
        s.wf(),
    ensures
        s.action_applied(now).wf(),
        s.action_applied(now).id_provider == s.id_provider,
{
    match s.action {
        Some(ActionView::DragRectangle { rectangle_id, offset }) => {
            lemma_first_true_sound(rect_id_hits(s.scene.rectangles, rectangle_id));
        },
        Some(ActionView::ResizeRectangle { rectangle_id, orig_start }) => {
            lemma_first_true_sound(rect_id_hits(s.scene.rectangles, rectangle_id));
        },
        Some(ActionView::DragLineStart { line_id }) => {
            lemma_first_true_sound(line_id_hits(s.scene.lines, line_id));
        },
        Some(ActionView::DragLineEnd { line_id }) => {
            lemma_first_true_sound(line_id_hits(s.scene.lines, line_id));
        },
        Some(ActionView::DragText { text_id }) => {
            lemma_first_true_sound(text_id_hits(s.scene.texts, text_id));
        },
        _ => {},
    }
}

/// A tick leaves the editor as it has to be, and gives out no identifier.
pub proof fn lemma_ticked_wf(s: AppView, now: u128)
    requires
        s.wf(),
    ensures
        s.ticked(now).wf(),
        s.ticked(now).id_provider == s.id_provider,
{
    lemma_action_applied_wf(s, now);
    let applied = s.action_applied(now);
    let followed = applied.scene.lines_followed();
    assert forall|i: int| 0 <= i < followed.lines.len() implies (#[trigger] followed.lines[i]).id
        == applied.scene.lines[i].id && followed.lines[i].color == applied.scene.lines[i].color by {
        let l = line_followed(applied.scene.rectangles, applied.scene.lines[i]);
    }
    let texts = followed.texts_followed(applied.dragged_text()).texts;
    assert forall|i: int| 0 <= i < texts.len() implies (#[trigger] texts[i]).id
        == applied.scene.texts[i].id && texts[i].color == applied.scene.texts[i].color by {
        let t = text_followed(followed.rectangles, followed.texts[i], applied.dragged_text());
    }
}

/// One event leaves the editor as it has to be, and gives out one
/// identifier at most.
pub proof fn lemma_handled_wf(s: AppView, e: Event, now: u128)
    requires
        s.wf(),
        s.id_provider < u64::MAX,
    ensures
        s.handled(e, now).wf(),
        s.id_provider <= s.handled(e, now).id_provider <= s.id_provider + 1,
{
    match e {
        Event::Mouse(m) => {
            lemma_pointer_down_wf(s, (m.column, m.row), now);
            lemma_pointer_up_wf(s);
            lemma_middle_down_wf(s);
        },
        Event::Key(k) => {
            lemma_key_pressed_wf(s, k);
        },
        _ => {},
    }
}

/// The events of a tick leave the editor as it has to be, and give out
/// one identifier each at most.
pub proof fn lemma_handled_first_wf(s: AppView, events: Seq<Event>, n: int, now: u128)
    requires
        s.wf(),
        0 <= n <= events.len(),
        s.id_provider + n <= u64::MAX,
    ensures
        s.handled_first(events, n, now).wf(),
        s.id_provider <= s.handled_first(events, n, now).id_provider <= s.id_provider + n,
    decreases n,
{
    if n > 0 {
        lemma_handled_first_wf(s, events, n - 1, now);
        lemma_handled_wf(s.handled_first(events, n - 1, now), events[n - 1], now);
    }
}

/// Whatever the events of a tick are, the editor stays as it has to be: no
/// identifier is used twice, and none is given out again.
pub proof fn lemma_updated_wf(s: AppView, events: Seq<Event>, now: u128)
    requires
        s.wf(),
        s.id_provider + events.len() <= u64::MAX,
    ensures
        s.updated(events, now).wf(),
        s.id_provider <= s.updated(events, now).id_provider <= s.id_provider + events.len(),
{
    let moved = s.pointer_at(AppView::last_pointer(events, s.mouse));
    lemma_handled_first_wf(moved, events, events.len() as int, now);
    lemma_ticked_wf(moved.handled_first(events, events.len() as int, now), now);
}

/// A rectangle that was grabbed by its top edge follows the pointer: after
/// every tick it starts at the pointer less the offset at which it was
/// grabbed, but not left of the first column, and it keeps its size. Here
/// `s` is the editor when rectangle `i` is grabbed and `to` is where the
/// pointer is at the tick.
pub proof fn lemma_drag_keeps_offset(s: AppView, i: int, to: U16Point, now: u128)
    requires
        s.wf(),
        0 <= i < s.scene.rectangles.len(),
        s.scene.rectangles[i].spec_is_drag_point(s.mouse),
    ensures
        s.rect_drag_begun(i).action == Some(
            ActionView::DragRectangle {
                rectangle_id: s.scene.rectangles[i].id,
                offset: (
                    (s.mouse.0 - s.scene.rectangles[i].rect.start.0) as i32,
                    (s.mouse.1 - s.scene.rectangles[i].rect.start.1) as i32,
                ),
            },
        ),
        s.rect_drag_begun(i).pointer_at(to).ticked(now).scene.rectangles.len()
            == s.scene.rectangles.len(),
        s.rect_drag_begun(i).pointer_at(to).ticked(now).scene.rectangles[i].rect.start.0
            == crate::common::max_int(0, to.0 - (s.mouse.0 - s.scene.rectangles[i].rect.start.0)),
        s.rect_drag_begun(i).pointer_at(to).ticked(now).scene.rectangles[i].rect.start.1 == to.1,
        s.rect_drag_begun(i).pointer_at(to).ticked(now).scene.rectangles[i].rect.size
            == s.scene.rectangles[i].rect.size,
        s.rect_drag_begun(i).pointer_at(to).ticked(now).scene.rectangles[i].id
            == s.scene.rectangles[i].id,
        forall|j: int|
            0 <= j < s.scene.rectangles.len() && j != i ==> s.rect_drag_begun(i).pointer_at(
                to,
            ).ticked(now).scene.rectangles[j] == s.scene.rectangles[j],
{
    lemma_rect_found_by_id(s.scene.rectangles, i);
}

/// Whatever the offset of a drag is, after a tick the dragged rectangle
/// starts at the pointer less that offset, each coordinate kept within the
/// grid, and has the size that it had.
pub proof fn lemma_drag_follows_pointer(s: AppView, k: int, now: u128)
    requires
        s.wf(),
        0 <= k < s.scene.rectangles.len(),
        s.action.is_some(),
        s.action.unwrap() is DragRectangle,
        s.action.unwrap()->DragRectangle_rectangle_id == s.scene.rectangles[k].id,
    ensures
        s.ticked(now).scene.rectangles.len() == s.scene.rectangles.len(),
        s.ticked(now).scene.rectangles[k].rect.start.0 == clamp_u16(
            s.mouse.0 - s.action.unwrap()->DragRectangle_offset.0,
        ),
        s.ticked(now).scene.rectangles[k].rect.start.1 == clamp_u16(
            s.mouse.1 - s.action.unwrap()->DragRectangle_offset.1,
        ),
        s.ticked(now).scene.rectangles[k].rect.size == s.scene.rectangles[k].rect.size,
{
    lemma_rect_found_by_id(s.scene.rectangles, k);
}

/// While an operation is under way, a press of the left button changes
/// nothing, and no tool can be started: the operation goes on as it was and
/// no object comes into being.
pub proof fn lemma_busy_editor_ignores_press(s: AppView, at: U16Point, now: u128)
    requires
        s.action.is_some(),
    ensures
        s.pointer_down(at, now) == s,
        s.start_action(at, now) == s,
        s.middle_down() == s,
{
}

} // verus!
