//! The diagram editor: a scene and the state machine that edits it from
//! pointer and key events.

use vstd::prelude::*;
use crate::action::{
    Action,
    ActionView,
    DragLineEndAction,
    DragLineStartAction,
    DragRectangleAction,
    FreehandAction,
    Intent,
    LineAction,
    PointerPoint,
    RectAction,
    ResizeRectangleAction,
    TextAction,
};
use crate::app_model::{
    AppView,
    lemma_action_applied_wf,
    lemma_handled_first_wf,
    lemma_handled_wf,
    lemma_ticked_wf,
    trace_expired,
    lemma_deleted_wf,
    lemma_key_pressed_wf,
    lemma_pointer_down_wf,
    lemma_pointer_up_wf,
    lemma_text_committed_wf,
};
use crate::common::U16Point;
use crate::event_group::{
    Event,
    EventGroup,
    KeyCode,
    KeyEvent,
    MouseButton,
    MouseEvent,
    MouseEventKind,
    mouse_pos,
};
use crate::line::Line;
use crate::rect::Rect;
use crate::objects::{Freehand, FreehandView, LineObject, RectObject, TextObject};
use crate::scene::{
    Scene,
    header_hits,
    lemma_first_true_sound,
    line_end_hits,
    line_start_hits,
    resize_hits,
};
use crate::text_editor::TextEditor;

verus! {

/// What an optional operation holds.
pub open spec fn action_view(action: Option<Action>) -> Option<ActionView> {
    match action {
        Some(a) => Some(a@),
        None => None,
    }
}

/// What each stroke of `freehands` holds.
pub open spec fn freehands_view(freehands: Seq<Freehand>) -> Seq<FreehandView> {
    Seq::new(freehands.len(), |i: int| freehands[i]@)
}

/// The diagram editor. Its view is the model that the functions below are
/// stated over. Every editor that `new` makes and these functions change
/// keeps `AppView::wf`: identifiers are given out in growing order and never
/// twice. An identifier is a `u64`, so a function that may give one out asks
/// that one is left.
pub struct App {
    id_provider: u64,
    action: Option<Action>,
    intent: Intent,
    current_mouse_pos: U16Point,
    current_color: usize,
    scene: Scene,
    pointer_trace: Vec<PointerPoint>,
    click_trace: Vec<PointerPoint>,
    freehands: Vec<Freehand>,
}

impl View for App {
    type V = AppView;

    closed spec fn view(&self) -> AppView {
        AppView {
            id_provider: self.id_provider,
            action: action_view(self.action),
            intent: self.intent,
            mouse: self.current_mouse_pos,
            color: self.current_color,
            scene: self.scene@,
            pointer_trace: self.pointer_trace@,
            click_trace: self.click_trace@,
            freehands: freehands_view(self.freehands@),
        }
    }
}

impl App {
    pub fn new() -> (r: Self)
        ensures
            r@ == AppView::initial(),
            r@.wf(),
    {
        let r = Self {
            id_provider: 0,
            action: None,
            intent: Intent::Rect,
            current_mouse_pos: (0, 0),
            current_color: 0,
            scene: Scene::new(),
            pointer_trace: Vec::new(),
            click_trace: Vec::new(),
            freehands: Vec::new(),
        };
        assert(r@.scene.rectangles =~= Seq::empty());
        assert(r@.scene.lines =~= Seq::empty());
        assert(r@.scene.texts =~= Seq::empty());
        assert(r@.pointer_trace =~= Seq::empty());
        assert(r@.click_trace =~= Seq::empty());
        assert(r@.freehands =~= Seq::empty());
        r
    }

    /// The objects of the diagram.
    pub fn scene(&self) -> (r: &Scene)
        ensures
            r@ == self@.scene,
    {
        &self.scene
    }

    /// The operation under way, if any.
    pub fn action(&self) -> (r: &Option<Action>)
        ensures
            action_view(*r) == self@.action,
    {
        &self.action
    }

    /// The tool that is selected.
    pub fn intent(&self) -> (r: Intent)
        ensures
            r == self@.intent,
    {
        self.intent
    }

    /// Where the pointer was seen last.
    pub fn current_mouse_pos(&self) -> (r: U16Point)
        ensures
            r == self@.mouse,
    {
        self.current_mouse_pos
    }

    /// The index of the colour that is selected.
    pub fn current_color(&self) -> (r: usize)
        ensures
            r == self@.color,
    {
        self.current_color
    }

    /// The identifier that was given out last.
    pub fn last_id(&self) -> (r: u64)
        ensures
            r == self@.id_provider,
    {
        self.id_provider
    }

    /// The cells that the pointer passed of late, the newest first.
    pub fn pointer_trace(&self) -> (r: &Vec<PointerPoint>)
        ensures
            r@ == self@.pointer_trace,
    {
        &self.pointer_trace
    }

    /// The places of the last clicks with the pointer tool.
    pub fn click_trace(&self) -> (r: &Vec<PointerPoint>)
        ensures
            r@ == self@.click_trace,
    {
        &self.click_trace
    }

    /// The strokes drawn by hand.
    pub fn freehands(&self) -> (r: &Vec<Freehand>)
        ensures
            freehands_view(r@) == self@.freehands,
    {
        &self.freehands
    }

    /// Takes note of where the pointer is.
    pub fn set_mouse_pos(&mut self, p: U16Point)
        ensures
            final(self)@ == old(self)@.pointer_at(p),
            old(self)@.wf() ==> final(self)@.wf(),
    {
        self.current_mouse_pos = p;
    }

    /// Whether a text is being edited.
    pub fn is_active_action_text(&self) -> (r: bool)
        ensures
            r == (self@.action.is_some() && self@.action.unwrap() is Text),
    {
        match &self.action {
            Some(a) => a.is_text(),
            None => false,
        }
    }

    /// Gives out the next identifier.
    fn get_id(&mut self) -> (r: u64)
        requires
            old(self)@.id_provider < u64::MAX,
        ensures
            r == old(self)@.next_id(),
            final(self)@ == (AppView { id_provider: r, ..old(self)@ }),
    {
        self.id_provider = self.id_provider + 1;
        self.id_provider
    }

    /// Starts the selected tool at `start`. While an operation is under
    /// way nothing is started.
    pub fn start_action(&mut self, start: U16Point, now_ms: u128)
        requires
            old(self)@.wf(),
        ensures
            final(self)@ == old(self)@.start_action(start, now_ms),
            final(self)@.wf(),
    {
        if self.action.is_some() {
            return ;
        }
        match self.intent {
            Intent::Line => {
                self.action = Some(Action::Line(LineAction { start }));
            },
            Intent::Rect => {
                self.action = Some(Action::Rect(RectAction { start }));
            },
            Intent::Text => {
                self.action = Some(Action::Text(TextAction { start, editor: TextEditor::new() }));
            },
            Intent::Pointer => {
                self.action = Some(Action::Pointer);
                self.click_trace.insert(
                    0,
                    PointerPoint {
                        pos: self.current_mouse_pos,
                        deadline: now_ms.saturating_add(2000),
                    },
                );
                assert(self@.click_trace =~= old(self)@.start_action(start, now_ms).click_trace);
            },
            Intent::Freehand => {
                let mut points: Vec<U16Point> = Vec::new();
                points.push(self.current_mouse_pos);
                assert(points@ =~= seq![self.current_mouse_pos]);
                self.action = Some(Action::Freehand(FreehandAction { points }));
            },
        }
    }

    /// Handles a press of the left button.
    pub fn on_left_mouse_button_down(&mut self, mouse_event: &MouseEvent, now_ms: u128)
        requires
            old(self)@.wf(),
        ensures
            final(self)@ == old(self)@.pointer_down((mouse_event.column, mouse_event.row), now_ms),
            final(self)@.wf(),
    {
        proof {
            lemma_pointer_down_wf(old(self)@, (mouse_event.column, mouse_event.row), now_ms);
        }
        if self.action.is_some() {
            return ;
        }
        let p: U16Point = self.current_mouse_pos;
        match self.scene.rectangle_resize_point_under_point(p) {
            Some(i) => {
                proof {
                    lemma_first_true_sound(resize_hits(self@.scene.rectangles, p));
                }
                let rect_obj: RectObject = self.scene.rectangles[i];
                self.action = Some(
                    Action::ResizeRectangle(
                        ResizeRectangleAction {
                            rectangle_id: rect_obj.id,
                            orig_start: rect_obj.rect.start,
                        },
                    ),
                );
                return ;
            },
            None => {},
        }
        match self.scene.line_with_start_under_point(p) {
            Some(i) => {
                proof {
                    lemma_first_true_sound(line_start_hits(self@.scene.lines, p));
                }
                let mut line_obj: LineObject = self.scene.lines[i];
                line_obj.start_anchor_rect_id = None;
                self.scene.lines.set(i, line_obj);
                self.action = Some(Action::DragLineStart(DragLineStartAction { line_id: line_obj.id }));
                return ;
            },
            None => {},
        }
        match self.scene.line_with_end_under_point(p) {
            Some(i) => {
                proof {
                    lemma_first_true_sound(line_end_hits(self@.scene.lines, p));
                }
                let mut line_obj: LineObject = self.scene.lines[i];
                line_obj.end_anchor_rect_id = None;
                self.scene.lines.set(i, line_obj);
                self.action = Some(Action::DragLineEnd(DragLineEndAction { line_id: line_obj.id }));
                return ;
            },
            None => {},
        }
        match self.scene.text_edit_under_point(p) {
            Some(i) => {
                let text_obj: TextObject = self.scene.texts.remove(i);
                self.action = Some(
                    Action::Text(
                        TextAction {
                            start: text_obj.start,
                            editor: TextEditor::new_with_lines(text_obj.lines),
                        },
                    ),
                );
                assert(self@.scene.texts =~= old(self)@.scene.texts.remove(i as int));
                return ;
            },
            None => {},
        }
        match self.scene.rectangle_header_under_point(p) {
            Some(i) => {
                proof {
                    lemma_first_true_sound(header_hits(self@.scene.rectangles, p));
                }
                let rect_obj: RectObject = self.scene.rectangles[i];
                self.action = Some(
                    Action::DragRectangle(
                        DragRectangleAction {
                            rectangle_id: rect_obj.id,
                            offset: (
                                p.0 as i32 - rect_obj.rect.start.0 as i32,
                                p.1 as i32 - rect_obj.rect.start.1 as i32,
                            ),
                        },
                    ),
                );
                return ;
            },
            None => {},
        }
        self.start_action((mouse_event.column, mouse_event.row), now_ms);
    }

    /// Handles a press of the middle button: begins a text at the pointer,
    /// unless an operation is under way.
    pub fn on_mouse_middle_down(&mut self)
        requires
            old(self)@.wf(),
        ensures
            final(self)@ == old(self)@.middle_down(),
            final(self)@.wf(),
    {
        if self.action.is_none() {
            self.action = Some(
                Action::Text(
                    TextAction { start: self.current_mouse_pos, editor: TextEditor::new() },
                ),
            );
        }
    }
}

impl App {
    /// Handles a release of the left button.
    pub fn on_mouse_left_up(&mut self)
        requires
            old(self)@.wf(),
            old(self)@.id_provider < u64::MAX,
        ensures
            final(self)@ == old(self)@.pointer_up(),
            final(self)@.wf(),
    {
        proof {
            lemma_pointer_up_wf(old(self)@);
        }
        let taken: Option<Action> = self.action.take();
        match taken {
            Some(Action::Line(line_action)) => {
                let new_id: u64 = self.get_id();
                let end: U16Point = self.current_mouse_pos;
                let mut line_obj: LineObject = LineObject::new(
                    new_id,
                    Line { start: line_action.start, end },
                    self.current_color,
                );
                line_obj.start_anchor_rect_id = self.scene.resolve_anchor(line_action.start);
                line_obj.end_anchor_rect_id = self.scene.resolve_anchor(end);
                self.scene.lines.push(line_obj);
            },
            Some(Action::Rect(rect_action)) => {
                let new_id: u64 = self.get_id();
                let rect: Rect = Rect::new_from_unordered_points(
                    rect_action.start,
                    self.current_mouse_pos,
                );
                self.scene.rectangles.push(RectObject::new(new_id, self.current_color, rect));
            },
            Some(Action::DragLineStart(drag)) => {
                self.scene.update_line_start_anchor(drag.line_id);
            },
            Some(Action::DragLineEnd(drag)) => {
                self.scene.update_line_end_anchor(drag.line_id);
            },
            Some(Action::Freehand(stroke)) => {
                self.freehands.push(Freehand::new(stroke.points, self.current_color));
                assert(self@.freehands =~= old(self)@.pointer_up().freehands);
            },
            Some(Action::DragRectangle(_)) => {},
            Some(Action::ResizeRectangle(_)) => {},
            Some(Action::Pointer) => {},
            Some(Action::Text(text_action)) => {
                self.action = Some(Action::Text(text_action));
            },
            Some(Action::DragText(drag)) => {
                self.action = Some(Action::DragText(drag));
            },
            None => {},
        }
    }

    /// Ends the text edit: the text becomes an object of the scene.
    pub fn end_text_mode(&mut self)
        requires
            old(self)@.wf(),
            old(self)@.id_provider < u64::MAX,
            old(self)@.action.is_some(),
            old(self)@.action.unwrap() is Text,
        ensures
            final(self)@ == old(self)@.end_text_mode(),
            final(self)@.wf(),
    {
        let taken: Option<Action> = self.action.take();
        match taken {
            Some(Action::Text(text_action)) => {
                proof {
                    lemma_text_committed_wf(old(self)@, text_action.start, text_action.editor@);
                }
                let anchor_rect_id = self.scene.resolve_anchor(text_action.start);
                let id: u64 = self.get_id();
                let text_obj = TextObject::new(
                    id,
                    text_action.start,
                    text_action.editor.into_lines(),
                    anchor_rect_id,
                    self.current_color,
                );
                self.scene.texts.push(text_obj);
                assert(self@.scene.texts =~= old(self)@.end_text_mode().scene.texts);
            },
            _ => {},
        }
    }

    /// Hands a key to the text editor of the text that is being edited.
    fn text_edit_mode_update(&mut self, key_event: &KeyEvent)
        requires
            old(self)@.wf(),
            old(self)@.action.is_some(),
            old(self)@.action.unwrap() is Text,
        ensures
            final(self)@ == (AppView {
                action: Some(
                    ActionView::Text {
                        start: old(self)@.action.unwrap()->Text_start,
                        editor: old(self)@.action.unwrap()->Text_editor.edited(*key_event),
                    },
                ),
                ..old(self)@
            }),
            final(self)@.wf(),
    {
        let taken: Option<Action> = self.action.take();
        match taken {
            Some(Action::Text(text_action)) => {
                let mut text_action = text_action;
                text_action.editor.edit(key_event);
                self.action = Some(Action::Text(text_action));
            },
            _ => {},
        }
    }

    /// Deletes one object under `p`: a text before a line, a line before a
    /// rectangle.
    pub fn delete_under_point(&mut self, p: U16Point)
        requires
            old(self)@.wf(),
        ensures
            final(self)@ == (AppView {
                scene: old(self)@.scene.deleted_under_point(p),
                ..old(self)@
            }),
            final(self)@.wf(),
    {
        proof {
            lemma_deleted_wf(old(self)@, p);
        }
        self.scene.delete_under_point(p);
    }

    /// Handles a key that was pressed while no text was being edited.
    pub fn on_key_press_not_edit_mode(&mut self, key_code: &KeyCode)
        requires
            old(self)@.wf(),
        ensures
            final(self)@ == old(self)@.key_pressed_idle(*key_code),
            final(self)@.wf(),
    {
        match *key_code {
            KeyCode::Char(c) => {
                if c == 'r' {
                    self.intent = Intent::Rect;
                } else if c == 'l' {
                    self.intent = Intent::Line;
                } else if c == 't' {
                    self.intent = Intent::Text;
                } else if c == 'p' {
                    self.intent = Intent::Pointer;
                } else if c == 'f' {
                    self.intent = Intent::Freehand;
                } else if '0' <= c && c <= '9' {
                    self.current_color = (c as u32 - '0' as u32) as usize;
                }
            },
            KeyCode::Delete => {
                self.delete_under_point(self.current_mouse_pos);
            },
            _ => {},
        }
    }

    /// Handles a key that was pressed.
    pub fn on_key_press(&mut self, key_event: &KeyEvent)
        requires
            old(self)@.wf(),
            old(self)@.id_provider < u64::MAX,
        ensures
            final(self)@ == old(self)@.key_pressed(*key_event),
            final(self)@.wf(),
    {
        proof {
            lemma_key_pressed_wf(old(self)@, *key_event);
        }
        if self.is_active_action_text() {
            if key_event.is_enter_without_alt() {
                self.end_text_mode();
            } else {
                self.text_edit_mode_update(key_event);
            }
        } else {
            self.on_key_press_not_edit_mode(&key_event.code);
        }
    }
}

/// Drops from the end of `trace` the cells whose time is over.
fn expire_trace(trace: &mut Vec<PointerPoint>, now_ms: u128)
    ensures
        final(trace)@ == trace_expired(old(trace)@, now_ms),
{
    while trace.len() > 0 && trace[trace.len() - 1].deadline < now_ms
        invariant
            trace_expired(trace@, now_ms) == trace_expired(old(trace)@, now_ms),
        decreases trace.len(),
    {
        let ghost before = trace@;
        trace.pop();
        assert(trace@ =~= before.drop_last());
    }
}

/// A pointer position less a drag offset, as a grid coordinate.
fn dragged_coordinate(pointer: u16, offset: i32) -> (r: u16)
    ensures
        r as int == crate::common::clamp_u16(pointer - offset),
{
    let wide: i64 = pointer as i64 - offset as i64;
    if wide < 0 {
        0
    } else if wide > 65535 {
        u16::MAX
    } else {
        wide as u16
    }
}

impl App {
    /// Notes the cell under the pointer in the pointer's trace, unless it
    /// is the cell that was noted last.
    fn populate_pointer_trace(&mut self, now_ms: u128)
        requires
            old(self)@.action == Some(ActionView::Pointer),
        ensures
            final(self)@ == old(self)@.action_applied(now_ms),
    {
        let can_have_new: bool = if self.pointer_trace.len() > 0 {
            let last: U16Point = self.pointer_trace[0].pos;
            !(last.0 == self.current_mouse_pos.0 && last.1 == self.current_mouse_pos.1)
        } else {
            true
        };
        if can_have_new {
            self.pointer_trace.insert(
                0,
                PointerPoint {
                    pos: self.current_mouse_pos,
                    deadline: now_ms.saturating_add(2000),
                },
            );
            assert(self@.pointer_trace =~= old(self)@.action_applied(now_ms).pointer_trace);
        }
    }

    /// Drops the trace cells whose time is over.
    fn update_pointer_trace(&mut self, now_ms: u128)
        ensures
            final(self)@ == (AppView {
                pointer_trace: trace_expired(old(self)@.pointer_trace, now_ms),
                click_trace: trace_expired(old(self)@.click_trace, now_ms),
                ..old(self)@
            }),
    {
        expire_trace(&mut self.pointer_trace, now_ms);
        expire_trace(&mut self.click_trace, now_ms);
    }

    /// Carries the operation under way on to where the pointer is now.
    pub fn on_update_current_action(&mut self, now_ms: u128)
        requires
            old(self)@.wf(),
        ensures
            final(self)@ == old(self)@.action_applied(now_ms),
            final(self)@.wf(),
    {
        proof {
            lemma_action_applied_wf(old(self)@, now_ms);
        }
        let mouse: U16Point = self.current_mouse_pos;
        let taken: Option<Action> = self.action.take();
        match taken {
            Some(Action::DragRectangle(drag)) => {
                let start: U16Point = (
                    dragged_coordinate(mouse.0, drag.offset.0),
                    dragged_coordinate(mouse.1, drag.offset.1),
                );
                self.scene.move_rect(drag.rectangle_id, start);
                self.action = Some(Action::DragRectangle(drag));
            },
            Some(Action::ResizeRectangle(resize)) => {
                self.scene.resize_rect(resize.rectangle_id, resize.orig_start, mouse);
                self.action = Some(Action::ResizeRectangle(resize));
            },
            Some(Action::DragLineStart(drag)) => {
                self.scene.move_line_start(drag.line_id, mouse);
                self.action = Some(Action::DragLineStart(drag));
            },
            Some(Action::DragLineEnd(drag)) => {
                self.scene.move_line_end(drag.line_id, mouse);
                self.action = Some(Action::DragLineEnd(drag));
            },
            Some(Action::DragText(drag)) => {
                self.scene.move_text(drag.text_id, mouse);
                self.action = Some(Action::DragText(drag));
            },
            Some(Action::Pointer) => {
                self.action = Some(Action::Pointer);
                self.populate_pointer_trace(now_ms);
            },
            Some(Action::Freehand(stroke)) => {
                let mut stroke = stroke;
                let last: U16Point = stroke.points[stroke.points.len() - 1];
                if !(last.0 == mouse.0 && last.1 == mouse.1) {
                    let cells: Vec<U16Point> = (Line { start: last, end: mouse }).points();
                    let ghost before = stroke.points@;
                    assert(cells@.len() >= 1);
                    assert(stroke.points@ =~= before + cells@.subrange(1, 1));
                    let mut k: usize = 1;
                    while k < cells.len()
                        invariant
                            1 <= k <= cells@.len(),
                            stroke.points@ == before + cells@.subrange(1, k as int),
                        decreases cells.len() - k,
                    {
                        stroke.points.push(cells[k]);
                        assert(stroke.points@ =~= before + cells@.subrange(1, k + 1));
                        k = k + 1;
                    }
                    assert(stroke.points@ =~= before + cells@.skip(1));
                }
                self.action = Some(Action::Freehand(stroke));
            },
            Some(Action::Rect(a)) => {
                self.action = Some(Action::Rect(a));
            },
            Some(Action::Line(a)) => {
                self.action = Some(Action::Line(a));
            },
            Some(Action::Text(a)) => {
                self.action = Some(Action::Text(a));
            },
            None => {},
        }
    }

    /// Brings the anchored ends of every line to their rectangles.
    pub fn on_update_lines_state(&mut self)
        ensures
            final(self)@ == (AppView { scene: old(self)@.scene.lines_followed(), ..old(self)@ }),
    {
        self.scene.follow_line_anchors();
    }

    /// Brings every anchored text to its rectangle, but for the text that
    /// is being dragged.
    pub fn on_update_text_state(&mut self)
        ensures
            final(self)@ == (AppView {
                scene: old(self)@.scene.texts_followed(old(self)@.dragged_text()),
                ..old(self)@
            }),
    {
        let dragged: Option<u64> = match &self.action {
            Some(Action::DragText(drag)) => Some(drag.text_id),
            _ => None,
        };
        self.scene.follow_text_anchors(dragged);
    }

    /// Makes one tick at the time `now_ms`.
    pub fn on_update(&mut self, now_ms: u128)
        requires
            old(self)@.wf(),
        ensures
            final(self)@ == old(self)@.ticked(now_ms),
            final(self)@.wf(),
    {
        proof {
            lemma_ticked_wf(old(self)@, now_ms);
        }
        self.on_update_current_action(now_ms);
        self.on_update_lines_state();
        self.on_update_text_state();
        self.update_pointer_trace(now_ms);
    }

    /// Handles one input event.
    pub fn handle_event(&mut self, event: &Event, now_ms: u128)
        requires
            old(self)@.wf(),
            old(self)@.id_provider < u64::MAX,
        ensures
            final(self)@ == old(self)@.handled(*event, now_ms),
            final(self)@.wf(),
            old(self)@.id_provider <= final(self)@.id_provider <= old(self)@.id_provider + 1,
    {
        proof {
            lemma_handled_wf(old(self)@, *event, now_ms);
        }
        match event {
            Event::Mouse(mouse_event) => {
                match mouse_event.kind {
                    MouseEventKind::Down(MouseButton::Left) => {
                        self.on_left_mouse_button_down(mouse_event, now_ms);
                    },
                    MouseEventKind::Up(MouseButton::Left) => {
                        self.on_mouse_left_up();
                    },
                    MouseEventKind::Down(MouseButton::Middle) => {
                        self.on_mouse_middle_down();
                    },
                    _ => {},
                }
            },
            Event::Key(key_event) => {
                if key_event.pressed {
                    self.on_key_press(key_event);
                }
            },
            _ => {},
        }
    }

    /// Handles the events of one tick and makes the tick: the pointer is
    /// taken to be where the last pointer event of the tick saw it, the
    /// events are handled in their order, and then the operation under way
    /// and the anchors are carried on. Each event may use up one identifier.
    /// The editor goes on after every tick, so the answer is always `true`.
    pub fn update(&mut self, events: &EventGroup, now_ms: u128) -> (go_on: bool)
        requires
            old(self)@.wf(),
            old(self)@.id_provider + events.events@.len() <= u64::MAX,
        ensures
            go_on,
            final(self)@ == old(self)@.updated(events.events@, now_ms),
            final(self)@.wf(),
    {
        match events.last_mouse_pos() {
            Some(p) => {
                self.current_mouse_pos = p;
            },
            None => {},
        }
        proof {
            lemma_last_pointer(events.events@, old(self)@.mouse);
        }
        let ghost start = self@;
        let mut i: usize = 0;
        while i < events.events.len()
            invariant
                0 <= i <= events.events@.len(),
                start.wf(),
                start.id_provider + events.events@.len() <= u64::MAX,
                self@ == start.handled_first(events.events@, i as int, now_ms),
                self@.wf(),
                self@.id_provider <= start.id_provider + i,
            decreases events.events.len() - i,
        {
            proof {
                lemma_handled_first_wf(start, events.events@, i as int, now_ms);
            }
            self.handle_event(&events.events[i], now_ms);
            i = i + 1;
        }
        self.on_update(now_ms);
        true
    }
}

/// The position of the last pointer event is the one that no pointer event
/// follows.
pub proof fn lemma_last_pointer(events: Seq<Event>, fallback: U16Point)
    ensures
        (forall|i: int| 0 <= i < events.len() ==> mouse_pos(#[trigger] events[i]).is_none())
            ==> AppView::last_pointer(events, fallback) == fallback,
        forall|i: int|
            0 <= i < events.len() && mouse_pos(#[trigger] events[i]).is_some() && (forall|j: int|
                i < j < events.len() ==> mouse_pos(#[trigger] events[j]).is_none())
                ==> AppView::last_pointer(events, fallback) == mouse_pos(events[i]).unwrap(),
    decreases events.len(),
{
    if events.len() > 0 {
        let rest = events.drop_last();
        lemma_last_pointer(rest, fallback);
        if mouse_pos(events.last()).is_none() {
            assert forall|i: int|
                0 <= i < events.len() && mouse_pos(#[trigger] events[i]).is_some() && (forall|
                    j: int,
                |
                    i < j < events.len() ==> mouse_pos(#[trigger] events[j]).is_none()) implies AppView::last_pointer(
                events,
                fallback,
            ) == mouse_pos(events[i]).unwrap() by {
                assert(i < events.len() - 1);
                assert(rest[i] == events[i]);
                assert forall|j: int| i < j < rest.len() implies mouse_pos(
                    #[trigger] rest[j],
                ).is_none() by {
                    assert(rest[j] == events[j]);
                }
            }
            if forall|i: int| 0 <= i < events.len() ==> mouse_pos(#[trigger] events[i]).is_none() {
                assert forall|i: int| 0 <= i < rest.len() implies mouse_pos(
                    #[trigger] rest[i],
                ).is_none() by {
                    assert(rest[i] == events[i]);
                }
            }
        } else {
            assert forall|i: int|
                0 <= i < events.len() && mouse_pos(#[trigger] events[i]).is_some() && (forall|
                    j: int,
                |
                    i < j < events.len() ==> mouse_pos(#[trigger] events[j]).is_none()) implies AppView::last_pointer(
                events,
                fallback,
            ) == mouse_pos(events[i]).unwrap() by {
                if i < events.len() - 1 {
                    assert(mouse_pos(events[events.len() - 1]).is_none());
                }
            }
        }
    }
}

} // verus!
