//! The tool that is selected and the operation that is under way.

use vstd::prelude::*;
use crate::common::{I32Point, U16Point};
use crate::objects::IdType;
use crate::text_editor::{TextEditor, TextEditorView};

verus! {

/// The tool that a click on empty ground starts.
#[derive(Debug, Clone, Copy, PartialEq, Eq, Structural)]
pub enum Intent {
    Line,
    Rect,
    Text,
    Pointer,
    Freehand,
}

/// A line is being drawn from `start`.
pub struct LineAction {
    pub start: U16Point,
}

/// A rectangle is being drawn from the corner `start`.
pub struct RectAction {
    pub start: U16Point,
}

/// A text at `start` is being edited.
pub struct TextAction {
    pub start: U16Point,
    pub editor: TextEditor,
}

/// A rectangle is being dragged; `offset` leads from its start to the
/// point at which it was grabbed.
pub struct DragRectangleAction {
    pub rectangle_id: IdType,
    pub offset: I32Point,
}

/// The start of a line is being dragged.
pub struct DragLineStartAction {
    pub line_id: IdType,
}

/// The end of a line is being dragged.
pub struct DragLineEndAction {
    pub line_id: IdType,
}

/// A text is being dragged.
pub struct DragTextAction {
    pub text_id: IdType,
}

/// A rectangle is being resized; `orig_start` is the corner that stays.
pub struct ResizeRectangleAction {
    pub rectangle_id: IdType,
    pub orig_start: U16Point,
}

/// A stroke is being drawn by hand through `points`.
pub struct FreehandAction {
    pub points: Vec<U16Point>,
}

/// The operation that is under way.
pub enum Action {
    Line(LineAction),
    Rect(RectAction),
    Text(TextAction),
    DragRectangle(DragRectangleAction),
    DragLineStart(DragLineStartAction),
    DragLineEnd(DragLineEndAction),
    DragText(DragTextAction),
    ResizeRectangle(ResizeRectangleAction),
    Pointer,
    Freehand(FreehandAction),
}

/// What an operation under way holds.
pub enum ActionView {
    Line { start: U16Point },
    Rect { start: U16Point },
    Text { start: U16Point, editor: TextEditorView },
    DragRectangle { rectangle_id: IdType, offset: I32Point },
    DragLineStart { line_id: IdType },
    DragLineEnd { line_id: IdType },
    DragText { text_id: IdType },
    ResizeRectangle { rectangle_id: IdType, orig_start: U16Point },
    Pointer,
    Freehand { points: Seq<U16Point> },
}

impl View for Action {
    type V = ActionView;

    open spec fn view(&self) -> ActionView {
        match *self {
            Action::Line(a) => ActionView::Line { start: a.start },
            Action::Rect(a) => ActionView::Rect { start: a.start },
            Action::Text(a) => ActionView::Text { start: a.start, editor: a.editor@ },
            Action::DragRectangle(a) => ActionView::DragRectangle {
                rectangle_id: a.rectangle_id,
                offset: a.offset,
            },
            Action::DragLineStart(a) => ActionView::DragLineStart { line_id: a.line_id },
            Action::DragLineEnd(a) => ActionView::DragLineEnd { line_id: a.line_id },
            Action::DragText(a) => ActionView::DragText { text_id: a.text_id },
            Action::ResizeRectangle(a) => ActionView::ResizeRectangle {
                rectangle_id: a.rectangle_id,
                orig_start: a.orig_start,
            },
            Action::Pointer => ActionView::Pointer,
            Action::Freehand(a) => ActionView::Freehand { points: a.points@ },
        }
    }
}

impl ActionView {
    /// Whether the operation keeps what it needs to go on: an editor that
    /// holds the row it edits, a stroke with a first point.
    pub open spec fn wf(self) -> bool {
        match self {
            ActionView::Text { editor, .. } => editor.wf(),
            ActionView::Freehand { points } => points.len() > 0,
            _ => true,
        }
    }

    /// A short name of the operation, for a status line.
    pub open spec fn short_name(self) -> Seq<char> {
        match self {
            ActionView::Line { .. } => "line"@,
            ActionView::Rect { .. } => "rect"@,
            ActionView::Text { .. } => "text"@,
            ActionView::DragRectangle { .. } => "drag rectangle"@,
            ActionView::ResizeRectangle { .. } => "resize rectangle"@,
            ActionView::DragLineStart { .. } => "drag line start"@,
            ActionView::DragLineEnd { .. } => "drag line end"@,
            ActionView::DragText { .. } => "drag text"@,
            ActionView::Pointer => "pointer"@,
            ActionView::Freehand { .. } => "freehand"@,
        }
    }
}

impl Action {
    /// Whether the operation keeps what it needs to go on: an editor that
    /// holds the row it edits, a stroke with a first point.
    pub open spec fn wf(&self) -> bool {
        self@.wf()
    }

    /// Whether a text is being edited.
    pub fn is_text(&self) -> (r: bool)
        ensures
            r == (self@ is Text),
    {
        match self {
            Action::Text(_) => true,
            _ => false,
        }
    }

    /// A short name of the operation, for a status line.
    pub fn to_string_short(&self) -> (r: &'static str)
        ensures
            r@ == self@.short_name(),
    {
        match self {
            Action::Line(_) => "line",
            Action::Rect(_) => "rect",
            Action::Text(_) => "text",
            Action::DragRectangle(_) => "drag rectangle",
            Action::ResizeRectangle(_) => "resize rectangle",
            Action::DragLineStart(_) => "drag line start",
            Action::DragLineEnd(_) => "drag line end",
            Action::DragText(_) => "drag text",
            Action::Pointer => "pointer",
            Action::Freehand(_) => "freehand",
        }
    }
}

/// A cell that the pointer passed, shown until `deadline`, a time in
/// milliseconds.
pub struct PointerPoint {
    pub pos: U16Point,
    pub deadline: u128,
}

/// Removes from `list` the first item for which `cond` holds, if there is
/// one, and says whether it removed one. The items that stay keep their
/// order.
pub fn delete_one_from_list_with_cond<V, C: Fn(&V) -> bool>(list: &mut Vec<V>, cond: C) -> (done:
    bool)
    requires
        forall|v: &V| #[trigger] cond.requires((v,)),
    ensures
        done ==> exists|i: int|
            0 <= i < old(list)@.len() && cond.ensures((&#[trigger] old(list)@[i],), true) && (
            forall|j: int| 0 <= j < i ==> cond.ensures((&#[trigger] old(list)@[j],), false))
                && final(list)@ == old(list)@.remove(i),
        !done ==> final(list)@ == old(list)@ && forall|j: int|
            0 <= j < old(list)@.len() ==> cond.ensures((&#[trigger] old(list)@[j],), false),
{
    let mut i: usize = 0;
    while i < list.len()
        invariant
            0 <= i <= list@.len(),
            list@ == old(list)@,
            forall|v: &V| #[trigger] cond.requires((v,)),
            forall|j: int| 0 <= j < i ==> cond.ensures((&#[trigger] list@[j],), false),
        decreases list.len() - i,
    {
        if cond(&list[i]) {
            list.remove(i);
            return true;
        }
        i = i + 1;
    }
    false
}

} // verus!
