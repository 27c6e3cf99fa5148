//! The objects of a diagram, and the searches that find the object under
//! a point.

use vstd::prelude::*;
use crate::action::delete_one_from_list_with_cond;
use crate::common::U16Point;
use crate::intersection::{intersection_of_rect_and_anchored_line, spec_anchored_crossing};
use crate::line::Line;
use crate::objects::{IdType, LineObject, RectObject, TextObject, TextObjectView};
use crate::rect::Rect;

verus! {

/// Whether `i` is the first index at which `hits` holds.
pub open spec fn is_first_true(hits: Seq<bool>, i: int) -> bool {
    0 <= i < hits.len() && hits[i] && forall|j: int| 0 <= j < i ==> !#[trigger] hits[j]
}

/// The first index at which `hits` holds.
pub open spec fn first_true(hits: Seq<bool>) -> Option<int> {
    if exists|i: int| is_first_true(hits, i) {
        Some(choose|i: int| is_first_true(hits, i))
    } else {
        None
    }
}

/// The first index at which `hits` holds is the only index before which it
/// holds nowhere.
pub proof fn lemma_first_true_is(hits: Seq<bool>, i: int)
    requires
        is_first_true(hits, i),
    ensures
        first_true(hits) == Some(i),
{
    let k = choose|k: int| is_first_true(hits, k);
    if k < i {
        assert(!hits[k]);
    }
    if i < k {
        assert(!hits[i]);
    }
}

/// Where `hits` holds nowhere, there is no first index.
pub proof fn lemma_first_true_none(hits: Seq<bool>)
    requires
        forall|j: int| 0 <= j < hits.len() ==> !#[trigger] hits[j],
    ensures
        first_true(hits).is_none(),
{
}

/// What `first_true` returns is an index at which `hits` holds, and it
/// returns one wherever `hits` holds somewhere.
pub proof fn lemma_first_true_sound(hits: Seq<bool>)
    ensures
        first_true(hits).is_some() ==> is_first_true(hits, first_true(hits).unwrap()),
        first_true(hits).is_none() ==> forall|j: int| 0 <= j < hits.len() ==> !#[trigger] hits[j],
{
    if first_true(hits).is_none() {
        assert forall|j: int| 0 <= j < hits.len() implies !#[trigger] hits[j] by {
            if hits[j] {
                lemma_some_true_has_first(hits, j);
            }
        }
    }
}

/// Where `hits` holds at `j`, it holds first at some index up to `j`.
proof fn lemma_some_true_has_first(hits: Seq<bool>, j: int)
    requires
        0 <= j < hits.len(),
        hits[j],
    ensures
        exists|i: int| is_first_true(hits, i) && i <= j,
    decreases j,
{
    if exists|k: int| 0 <= k < j && hits[k] {
        let k = choose|k: int| 0 <= k < j && hits[k];
        lemma_some_true_has_first(hits, k);
    } else {
        assert(is_first_true(hits, j));
    }
}

/// Whether an index found by a search is the index that the model gives.
pub open spec fn same_index(found: Option<usize>, model: Option<int>) -> bool {
    match found {
        Some(i) => model == Some(i as int),
        None => model.is_none(),
    }
}

/// What each text of `texts` holds.
pub open spec fn texts_view(texts: Seq<TextObject>) -> Seq<TextObjectView> {
    Seq::new(texts.len(), |i: int| texts[i]@)
}

/// For each rectangle, whether `p` is its resize point.
pub open spec fn resize_hits(rects: Seq<RectObject>, p: U16Point) -> Seq<bool> {
    Seq::new(rects.len(), |i: int| rects[i].spec_is_resize_point(p))
}

/// For each rectangle, whether `p` lies on its top edge.
pub open spec fn header_hits(rects: Seq<RectObject>, p: U16Point) -> Seq<bool> {
    Seq::new(rects.len(), |i: int| rects[i].spec_is_drag_point(p))
}

/// For each rectangle, whether it is the one with the identifier `id`.
pub open spec fn rect_id_hits(rects: Seq<RectObject>, id: IdType) -> Seq<bool> {
    Seq::new(rects.len(), |i: int| rects[i].id == id)
}

/// For each line, whether it is the one with the identifier `id`.
pub open spec fn line_id_hits(lines: Seq<LineObject>, id: IdType) -> Seq<bool> {
    Seq::new(lines.len(), |i: int| lines[i].id == id)
}

/// For each text, whether it is the one with the identifier `id`.
pub open spec fn text_id_hits(texts: Seq<TextObjectView>, id: IdType) -> Seq<bool> {
    Seq::new(texts.len(), |i: int| texts[i].id == id)
}

/// For each line, whether it starts at `p`.
pub open spec fn line_start_hits(lines: Seq<LineObject>, p: U16Point) -> Seq<bool> {
    Seq::new(lines.len(), |i: int| lines[i].line.start == p)
}

/// For each line, whether it ends at `p`.
pub open spec fn line_end_hits(lines: Seq<LineObject>, p: U16Point) -> Seq<bool> {
    Seq::new(lines.len(), |i: int| lines[i].line.end == p)
}

/// For each line, whether `p` is one of its cells.
pub open spec fn line_on_hits(lines: Seq<LineObject>, p: U16Point) -> Seq<bool> {
    Seq::new(lines.len(), |i: int| lines[i].spec_is_point_on(p))
}

/// For each text, whether `p` lies on one of its lines.
pub open spec fn text_on_hits(texts: Seq<TextObjectView>, p: U16Point) -> Seq<bool> {
    Seq::new(texts.len(), |i: int| texts[i].is_point_on(p))
}

/// The rectangle with the identifier `id`, if there is one.
pub open spec fn rect_by_id(rects: Seq<RectObject>, id: IdType) -> Option<RectObject> {
    match first_true(rect_id_hits(rects, id)) {
        Some(i) => Some(rects[i]),
        None => None,
    }
}

/// The rectangle that an anchor refers to, if there is an anchor and the
/// rectangle is still there.
pub open spec fn anchor_rect(rects: Seq<RectObject>, anchor: Option<IdType>) -> Option<RectObject> {
    match anchor {
        Some(id) => rect_by_id(rects, id),
        None => None,
    }
}

/// Whether a click at `p` picks up `text` for editing: inside the
/// rectangle that it is anchored to, or, for a text without such a
/// rectangle, at its start.
pub open spec fn is_text_editable_at(rects: Seq<RectObject>, text: TextObjectView, p: U16Point) -> bool {
    match anchor_rect(rects, text.anchor_rect_id) {
        Some(r) => r.rect.spec_is_point_inside(p),
        None => text.is_edit_point(p),
    }
}

/// For each text, whether a click at `p` picks it up for editing.
pub open spec fn text_edit_hits(
    rects: Seq<RectObject>,
    texts: Seq<TextObjectView>,
    p: U16Point,
) -> Seq<bool> {
    Seq::new(texts.len(), |i: int| is_text_editable_at(rects, texts[i], p))
}

/// Whether rectangle `i` is the one that a point `p` is anchored to: of the
/// rectangles that hold `p` the one with the smallest area, and of several
/// such the first.
pub open spec fn is_anchor_index(rects: Seq<RectObject>, p: U16Point, i: int) -> bool {
    &&& 0 <= i < rects.len()
    &&& rects[i].rect.spec_is_point_on(p)
    &&& forall|j: int|
        0 <= j < rects.len() && (#[trigger] rects[j]).rect.spec_is_point_on(p) ==> rects[i].rect.spec_area()
            < rects[j].rect.spec_area() || (rects[i].rect.spec_area() == rects[j].rect.spec_area()
            && i <= j)
}

/// The index of the rectangle that a point `p` is anchored to.
pub open spec fn anchor_index(rects: Seq<RectObject>, p: U16Point) -> Option<int> {
    if exists|i: int| is_anchor_index(rects, p, i) {
        Some(choose|i: int| is_anchor_index(rects, p, i))
    } else {
        None
    }
}

/// The identifier of the rectangle that a point `p` is anchored to.
pub open spec fn anchor_at(rects: Seq<RectObject>, p: U16Point) -> Option<IdType> {
    match anchor_index(rects, p) {
        Some(i) => Some(rects[i].id),
        None => None,
    }
}

/// Only one rectangle is the one that `p` is anchored to.
pub proof fn lemma_anchor_index_is(rects: Seq<RectObject>, p: U16Point, i: int)
    requires
        is_anchor_index(rects, p, i),
    ensures
        anchor_index(rects, p) == Some(i),
{
    let k = choose|k: int| is_anchor_index(rects, p, k);
    assert(rects[k].rect.spec_is_point_on(p));
    assert(rects[i].rect.spec_is_point_on(p));
}

/// Where no rectangle holds `p`, `p` is anchored to none.
pub proof fn lemma_anchor_index_none(rects: Seq<RectObject>, p: U16Point)
    requires
        forall|j: int| 0 <= j < rects.len() ==> !(#[trigger] rects[j]).rect.spec_is_point_on(p),
    ensures
        anchor_index(rects, p).is_none(),
{
}

/// A line whose start is brought to the rectangle that it is anchored to:
/// to the point where the line, drawn from the middle of the rectangle,
/// crosses the border, or to the middle where it crosses nowhere. A line
/// whose start has no anchor, or one whose rectangle is gone, stays.
pub open spec fn line_start_followed(rects: Seq<RectObject>, l: LineObject) -> LineObject {
    match anchor_rect(rects, l.start_anchor_rect_id) {
        Some(r) => {
            let moved = LineObject {
                line: Line { start: r.rect.spec_midpoint(), end: l.line.end },
                ..l
            };
            match spec_anchored_crossing(r.rect, moved.spec_start_line_segment()) {
                Some(x) => LineObject { line: Line { start: x, end: l.line.end }, ..l },
                None => moved,
            }
        },
        None => l,
    }
}

/// A line whose end is brought to the rectangle that it is anchored to, as
/// `line_start_followed` brings its start.
pub open spec fn line_end_followed(rects: Seq<RectObject>, l: LineObject) -> LineObject {
    match anchor_rect(rects, l.end_anchor_rect_id) {
        Some(r) => {
            let moved = LineObject {
                line: Line { start: l.line.start, end: r.rect.spec_midpoint() },
                ..l
            };
            match spec_anchored_crossing(r.rect, moved.spec_end_line_segment()) {
                Some(x) => LineObject { line: Line { start: l.line.start, end: x }, ..l },
                None => moved,
            }
        },
        None => l,
    }
}

/// A line after both its ends followed their anchors, the start first.
pub open spec fn line_followed(rects: Seq<RectObject>, l: LineObject) -> LineObject {
    line_end_followed(rects, line_start_followed(rects, l))
}

/// A text brought to the middle of the rectangle that it is anchored to,
/// unless it is the text that is being dragged.
pub open spec fn text_followed(
    rects: Seq<RectObject>,
    t: TextObjectView,
    dragged: Option<IdType>,
) -> TextObjectView {
    match anchor_rect(rects, t.anchor_rect_id) {
        Some(r) => if dragged == Some(t.id) {
            t
        } else {
            TextObjectView { start: r.rect.spec_midpoint(), ..t }
        },
        None => t,
    }
}

/// What a scene holds.
pub struct SceneView {
    pub rectangles: Seq<RectObject>,
    pub lines: Seq<LineObject>,
    pub texts: Seq<TextObjectView>,
}

impl SceneView {
    /// The scene after one object under `p` was deleted: the first text
    /// that `p` lies on; without one, the first line that it lies on;
    /// without one, the smallest rectangle that holds it. What is anchored
    /// to a deleted rectangle keeps the identifier.
    pub open spec fn deleted_under_point(self, p: U16Point) -> SceneView {
        match first_true(text_on_hits(self.texts, p)) {
            Some(i) => SceneView { texts: self.texts.remove(i), ..self },
            None => match first_true(line_on_hits(self.lines, p)) {
                Some(i) => SceneView { lines: self.lines.remove(i), ..self },
                None => match anchor_index(self.rectangles, p) {
                    Some(i) => SceneView { rectangles: self.rectangles.remove(i), ..self },
                    None => self,
                },
            },
        }
    }

    /// The scene with the rectangle `id` moved so that it starts at
    /// `start`. Without such a rectangle nothing changes.
    pub open spec fn rect_moved(self, id: IdType, start: U16Point) -> SceneView {
        match first_true(rect_id_hits(self.rectangles, id)) {
            Some(k) => SceneView {
                rectangles: self.rectangles.update(
                    k,
                    RectObject {
                        rect: Rect { start, size: self.rectangles[k].rect.size },
                        ..self.rectangles[k]
                    },
                ),
                ..self
            },
            None => self,
        }
    }

    /// The scene with the rectangle `id` made the one that two corners
    /// span. Without such a rectangle nothing changes.
    pub open spec fn rect_resized(self, id: IdType, fixed: U16Point, corner: U16Point) -> SceneView {
        match first_true(rect_id_hits(self.rectangles, id)) {
            Some(k) => SceneView {
                rectangles: self.rectangles.update(
                    k,
                    RectObject { rect: Rect::spec_from_points(fixed, corner), ..self.rectangles[k] },
                ),
                ..self
            },
            None => self,
        }
    }

    /// The scene with the start of the line `id` put at `p`; its end stays.
    /// Without such a line nothing changes.
    pub open spec fn line_start_moved(self, id: IdType, p: U16Point) -> SceneView {
        match first_true(line_id_hits(self.lines, id)) {
            Some(k) => SceneView {
                lines: self.lines.update(
                    k,
                    LineObject { line: Line { start: p, end: self.lines[k].line.end }, ..self.lines[k] },
                ),
                ..self
            },
            None => self,
        }
    }

    /// The scene with the end of the line `id` put at `p`; its start stays.
    /// Without such a line nothing changes.
    pub open spec fn line_end_moved(self, id: IdType, p: U16Point) -> SceneView {
        match first_true(line_id_hits(self.lines, id)) {
            Some(k) => SceneView {
                lines: self.lines.update(
                    k,
                    LineObject { line: Line { start: self.lines[k].line.start, end: p }, ..self.lines[k] },
                ),
                ..self
            },
            None => self,
        }
    }

    /// The scene with the text `id` put at `p`. Without such a text nothing
    /// changes.
    pub open spec fn text_moved(self, id: IdType, p: U16Point) -> SceneView {
        match first_true(text_id_hits(self.texts, id)) {
            Some(k) => SceneView {
                texts: self.texts.update(k, TextObjectView { start: p, ..self.texts[k] }),
                ..self
            },
            None => self,
        }
    }

    /// The scene with the start of the line `id` anchored to the rectangle
    /// under it, or to none where none is under it.
    pub open spec fn start_anchor_resolved(self, id: IdType) -> SceneView {
        match first_true(line_id_hits(self.lines, id)) {
            Some(k) => SceneView {
                lines: self.lines.update(
                    k,
                    LineObject {
                        start_anchor_rect_id: anchor_at(self.rectangles, self.lines[k].line.start),
                        ..self.lines[k]
                    },
                ),
                ..self
            },
            None => self,
        }
    }

    /// The scene with the end of the line `id` anchored to the rectangle
    /// under it, or to none where none is under it.
    pub open spec fn end_anchor_resolved(self, id: IdType) -> SceneView {
        match first_true(line_id_hits(self.lines, id)) {
            Some(k) => SceneView {
                lines: self.lines.update(
                    k,
                    LineObject {
                        end_anchor_rect_id: anchor_at(self.rectangles, self.lines[k].line.end),
                        ..self.lines[k]
                    },
                ),
                ..self
            },
            None => self,
        }
    }

    /// The scene after every line followed its anchors.
    pub open spec fn lines_followed(self) -> SceneView {
        SceneView {
            lines: Seq::new(self.lines.len(), |i: int| line_followed(self.rectangles, self.lines[i])),
            ..self
        }
    }

    /// The scene after every text but the dragged one followed its anchor.
    pub open spec fn texts_followed(self, dragged: Option<IdType>) -> SceneView {
        SceneView {
            texts: Seq::new(
                self.texts.len(),
                |i: int| text_followed(self.rectangles, self.texts[i], dragged),
            ),
            ..self
        }
    }
}

/// The rectangles, lines and texts of a diagram, each kind in the order in
/// which its objects were made.
pub struct Scene {
    pub rectangles: Vec<RectObject>,
    pub lines: Vec<LineObject>,
    pub texts: Vec<TextObject>,
}

impl View for Scene {
    type V = SceneView;

    open spec fn view(&self) -> SceneView {
        SceneView {
            rectangles: self.rectangles@,
            lines: self.lines@,
            texts: texts_view(self.texts@),
        }
    }
}

impl Scene {
    /// A scene without objects.
    pub fn new() -> (r: Self)
        ensures
            r@.rectangles.len() == 0,
            r@.lines.len() == 0,
            r@.texts.len() == 0,
    {
        Scene { rectangles: Vec::new(), lines: Vec::new(), texts: Vec::new() }
    }

    /// The first rectangle whose resize point is `p`.
    pub fn rectangle_resize_point_under_point(&self, p: U16Point) -> (r: Option<usize>)
        ensures
            same_index(r, first_true(resize_hits(self@.rectangles, p))),
    {
        let ghost hits = resize_hits(self.rectangles@, p);
        let mut i: usize = 0;
        while i < self.rectangles.len()
            invariant
                0 <= i <= self.rectangles@.len(),
                hits == resize_hits(self.rectangles@, p),
                forall|j: int| 0 <= j < i ==> !#[trigger] hits[j],
            decreases self.rectangles.len() - i,
        {
            if self.rectangles[i].is_resize_point(p) {
                proof {
                    lemma_first_true_is(hits, i as int);
                }
                return Some(i);
            }
            i = i + 1;
        }
        proof {
            lemma_first_true_none(hits);
        }
        None
    }

    /// The first rectangle on whose top edge `p` lies.
    pub fn rectangle_header_under_point(&self, p: U16Point) -> (r: Option<usize>)
        ensures
            same_index(r, first_true(header_hits(self@.rectangles, p))),
    {
        let ghost hits = header_hits(self.rectangles@, p);
        let mut i: usize = 0;
        while i < self.rectangles.len()
            invariant
                0 <= i <= self.rectangles@.len(),
                hits == header_hits(self.rectangles@, p),
                forall|j: int| 0 <= j < i ==> !#[trigger] hits[j],
            decreases self.rectangles.len() - i,
        {
            if self.rectangles[i].is_drag_point(p) {
                proof {
                    lemma_first_true_is(hits, i as int);
                }
                return Some(i);
            }
            i = i + 1;
        }
        proof {
            lemma_first_true_none(hits);
        }
        None
    }

    /// The rectangle that `p` is anchored to: the smallest that holds it.
    pub fn rectangle_under_point(&self, p: U16Point) -> (r: Option<usize>)
        ensures
            same_index(r, anchor_index(self@.rectangles, p)),
    {
        let ghost rects = self.rectangles@;
        let mut best: Option<usize> = None;
        let mut smallest_area: u32 = 0;
        let mut i: usize = 0;
        while i < self.rectangles.len()
            invariant
                0 <= i <= self.rectangles@.len(),
                rects == self.rectangles@,
                best.is_none() ==> forall|j: int|
                    0 <= j < i ==> !(#[trigger] rects[j]).rect.spec_is_point_on(p),
                best.is_some() ==> {
                    &&& best.unwrap() < i
                    &&& rects[best.unwrap() as int].rect.spec_is_point_on(p)
                    &&& smallest_area == rects[best.unwrap() as int].rect.spec_area()
                    &&& forall|j: int|
                        0 <= j < i && (#[trigger] rects[j]).rect.spec_is_point_on(p)
                            ==> smallest_area < rects[j].rect.spec_area() || (smallest_area
                            == rects[j].rect.spec_area() && best.unwrap() <= j)
                },
            decreases self.rectangles.len() - i,
        {
            let rect = &self.rectangles[i].rect;
            if rect.is_point_on(p) {
                let area: u32 = rect.area();
                if best.is_none() || area < smallest_area {
                    smallest_area = area;
                    best = Some(i);
                }
            }
            i = i + 1;
        }
        proof {
            match best {
                Some(b) => {
                    assert(is_anchor_index(rects, p, b as int));
                    lemma_anchor_index_is(rects, p, b as int);
                },
                None => {
                    lemma_anchor_index_none(rects, p);
                },
            }
        }
        best
    }

    /// The identifier of the rectangle that `p` is anchored to.
    pub fn resolve_anchor(&self, p: U16Point) -> (r: Option<IdType>)
        ensures
            r == anchor_at(self@.rectangles, p),
    {
        match self.rectangle_under_point(p) {
            Some(i) => Some(self.rectangles[i].id),
            None => None,
        }
    }

    /// The first rectangle with the identifier `id`.
    pub fn rect_index(&self, id: IdType) -> (r: Option<usize>)
        ensures
            same_index(r, first_true(rect_id_hits(self@.rectangles, id))),
            r.is_some() ==> r.unwrap() < self@.rectangles.len() && rect_by_id(
                self@.rectangles,
                id,
            ) == Some(self@.rectangles[r.unwrap() as int]),
            r.is_none() ==> rect_by_id(self@.rectangles, id).is_none(),
    {
        let ghost hits = rect_id_hits(self.rectangles@, id);
        let mut i: usize = 0;
        while i < self.rectangles.len()
            invariant
                0 <= i <= self.rectangles@.len(),
                hits == rect_id_hits(self.rectangles@, id),
                forall|j: int| 0 <= j < i ==> !#[trigger] hits[j],
            decreases self.rectangles.len() - i,
        {
            if self.rectangles[i].id == id {
                proof {
                    lemma_first_true_is(hits, i as int);
                }
                return Some(i);
            }
            i = i + 1;
        }
        proof {
            lemma_first_true_none(hits);
        }
        None
    }

    /// The first line with the identifier `id`.
    pub fn line_index(&self, id: IdType) -> (r: Option<usize>)
        ensures
            same_index(r, first_true(line_id_hits(self@.lines, id))),
            r.is_some() ==> r.unwrap() < self@.lines.len(),
    {
        let ghost hits = line_id_hits(self.lines@, id);
        let mut i: usize = 0;
        while i < self.lines.len()
            invariant
                0 <= i <= self.lines@.len(),
                hits == line_id_hits(self.lines@, id),
                forall|j: int| 0 <= j < i ==> !#[trigger] hits[j],
            decreases self.lines.len() - i,
        {
            if self.lines[i].id == id {
                proof {
                    lemma_first_true_is(hits, i as int);
                }
                return Some(i);
            }
            i = i + 1;
        }
        proof {
            lemma_first_true_none(hits);
        }
        None
    }

    /// The first text with the identifier `id`.
    pub fn text_index(&self, id: IdType) -> (r: Option<usize>)
        ensures
            same_index(r, first_true(text_id_hits(self@.texts, id))),
            r.is_some() ==> r.unwrap() < self@.texts.len(),
    {
        let ghost hits = text_id_hits(self@.texts, id);
        let mut i: usize = 0;
        while i < self.texts.len()
            invariant
                0 <= i <= self.texts@.len(),
                hits == text_id_hits(self@.texts, id),
                forall|j: int| 0 <= j < i ==> !#[trigger] hits[j],
            decreases self.texts.len() - i,
        {
            if self.texts[i].id == id {
                proof {
                    lemma_first_true_is(hits, i as int);
                }
                return Some(i);
            }
            i = i + 1;
        }
        proof {
            lemma_first_true_none(hits);
        }
        None
    }

    /// The first line that starts at `p`.
    pub fn line_with_start_under_point(&self, p: U16Point) -> (r: Option<usize>)
        ensures
            same_index(r, first_true(line_start_hits(self@.lines, p))),
    {
        let ghost hits = line_start_hits(self.lines@, p);
        let mut i: usize = 0;
        while i < self.lines.len()
            invariant
                0 <= i <= self.lines@.len(),
                hits == line_start_hits(self.lines@, p),
                forall|j: int| 0 <= j < i ==> !#[trigger] hits[j],
            decreases self.lines.len() - i,
        {
            let start: U16Point = self.lines[i].line.start;
            if start.0 == p.0 && start.1 == p.1 {
                proof {
                    lemma_first_true_is(hits, i as int);
                }
                return Some(i);
            }
            i = i + 1;
        }
        proof {
            lemma_first_true_none(hits);
        }
        None
    }

    /// The first line that ends at `p`.
    pub fn line_with_end_under_point(&self, p: U16Point) -> (r: Option<usize>)
        ensures
            same_index(r, first_true(line_end_hits(self@.lines, p))),
    {
        let ghost hits = line_end_hits(self.lines@, p);
        let mut i: usize = 0;
        while i < self.lines.len()
            invariant
                0 <= i <= self.lines@.len(),
                hits == line_end_hits(self.lines@, p),
                forall|j: int| 0 <= j < i ==> !#[trigger] hits[j],
            decreases self.lines.len() - i,
        {
            let end: U16Point = self.lines[i].line.end;
            if end.0 == p.0 && end.1 == p.1 {
                proof {
                    lemma_first_true_is(hits, i as int);
                }
                return Some(i);
            }
            i = i + 1;
        }
        proof {
            lemma_first_true_none(hits);
        }
        None
    }

    /// The first line of which `p` is a cell.
    pub fn line_under_point(&self, p: U16Point) -> (r: Option<usize>)
        ensures
            same_index(r, first_true(line_on_hits(self@.lines, p))),
    {
        let ghost hits = line_on_hits(self.lines@, p);
        let mut i: usize = 0;
        while i < self.lines.len()
            invariant
                0 <= i <= self.lines@.len(),
                hits == line_on_hits(self.lines@, p),
                forall|j: int| 0 <= j < i ==> !#[trigger] hits[j],
            decreases self.lines.len() - i,
        {
            if self.lines[i].is_point_on(p) {
                proof {
                    lemma_first_true_is(hits, i as int);
                }
                return Some(i);
            }
            i = i + 1;
        }
        proof {
            lemma_first_true_none(hits);
        }
        None
    }

    /// Whether a click at `p` picks up text `index` for editing.
    pub fn is_text_editable_at(&self, index: usize, p: U16Point) -> (r: bool)
        requires
            index < self@.texts.len(),
        ensures
            r == is_text_editable_at(self@.rectangles, self@.texts[index as int], p),
    {
        let text = &self.texts[index];
        let anchor: Option<usize> = match text.anchor_rect_id {
            Some(id) => self.rect_index(id),
            None => None,
        };
        match anchor {
            Some(k) => self.rectangles[k].rect.is_point_inside(p),
            None => text.is_edit_point(p),
        }
    }

    /// The first text that a click at `p` picks up for editing.
    pub fn text_edit_under_point(&self, p: U16Point) -> (r: Option<usize>)
        ensures
            same_index(r, first_true(text_edit_hits(self@.rectangles, self@.texts, p))),
            r.is_some() ==> r.unwrap() < self@.texts.len(),
    {
        let ghost hits = text_edit_hits(self@.rectangles, self@.texts, p);
        let mut i: usize = 0;
        while i < self.texts.len()
            invariant
                0 <= i <= self.texts@.len(),
                hits == text_edit_hits(self@.rectangles, self@.texts, p),
                forall|j: int| 0 <= j < i ==> !#[trigger] hits[j],
            decreases self.texts.len() - i,
        {
            if self.is_text_editable_at(i, p) {
                proof {
                    lemma_first_true_is(hits, i as int);
                }
                return Some(i);
            }
            i = i + 1;
        }
        proof {
            lemma_first_true_none(hits);
        }
        None
    }
}

impl Scene {
    /// Deletes one object under `p`: a text before a line, a line before a
    /// rectangle, and never more than one.
    pub fn delete_under_point(&mut self, p: U16Point)
        ensures
            final(self)@ == old(self)@.deleted_under_point(p),
    {
        let ghost text_hits = text_on_hits(self@.texts, p);
        let ghost line_hits = line_on_hits(self@.lines, p);
        let on_text = |o: &TextObject| -> (b: bool)
            ensures
                b == o@.is_point_on(p),
            { o.is_point_on(p) };
        if delete_one_from_list_with_cond(&mut self.texts, on_text) {
            proof {
                let i = choose|i: int|
                    0 <= i < old(self).texts@.len() && on_text.ensures(
                        (&#[trigger] old(self).texts@[i],),
                        true,
                    ) && (forall|j: int|
                        0 <= j < i ==> on_text.ensures((&#[trigger] old(self).texts@[j],), false))
                        && self.texts@ == old(self).texts@.remove(i);
                assert(is_first_true(text_hits, i));
                lemma_first_true_is(text_hits, i);
                assert(self@.texts =~= old(self)@.texts.remove(i));
            }
            return ;
        }
        proof {
            assert forall|j: int| 0 <= j < text_hits.len() implies !#[trigger] text_hits[j] by {
                assert(on_text.ensures((&old(self).texts@[j],), false));
            }
            lemma_first_true_none(text_hits);
        }
        let on_line = |o: &LineObject| -> (b: bool)
            ensures
                b == o.spec_is_point_on(p),
            { o.is_point_on(p) };
        if delete_one_from_list_with_cond(&mut self.lines, on_line) {
            proof {
                let i = choose|i: int|
                    0 <= i < old(self).lines@.len() && on_line.ensures(
                        (&#[trigger] old(self).lines@[i],),
                        true,
                    ) && (forall|j: int|
                        0 <= j < i ==> on_line.ensures((&#[trigger] old(self).lines@[j],), false))
                        && self.lines@ == old(self).lines@.remove(i);
                assert(is_first_true(line_hits, i));
                lemma_first_true_is(line_hits, i);
            }
            return ;
        }
        proof {
            assert forall|j: int| 0 <= j < line_hits.len() implies !#[trigger] line_hits[j] by {
                assert(on_line.ensures((&old(self).lines@[j],), false));
            }
            lemma_first_true_none(line_hits);
        }
        match self.rectangle_under_point(p) {
            Some(i) => {
                self.rectangles.remove(i);
            },
            None => {},
        }
    }

    /// Where line `index` comes to lie when its ends follow their anchors.
    fn line_followed(&self, index: usize) -> (r: LineObject)
        requires
            index < self@.lines.len(),
        ensures
            r == line_followed(self@.rectangles, self@.lines[index as int]),
    {
        let mut l: LineObject = self.lines[index];
        let start_rect: Option<usize> = match l.start_anchor_rect_id {
            Some(id) => self.rect_index(id),
            None => None,
        };
        match start_rect {
            Some(k) => {
                let rect = &self.rectangles[k].rect;
                l.line.start = rect.midpoint();
                match intersection_of_rect_and_anchored_line(rect, &l.start_line_segment()) {
                    Some(x) => {
                        l.line.start = x;
                    },
                    None => {},
                }
            },
            None => {},
        }
        assert(l == line_start_followed(self@.rectangles, self@.lines[index as int]));
        let end_rect: Option<usize> = match l.end_anchor_rect_id {
            Some(id) => self.rect_index(id),
            None => None,
        };
        match end_rect {
            Some(k) => {
                let rect = &self.rectangles[k].rect;
                l.line.end = rect.midpoint();
                match intersection_of_rect_and_anchored_line(rect, &l.end_line_segment()) {
                    Some(x) => {
                        l.line.end = x;
                    },
                    None => {},
                }
            },
            None => {},
        }
        l
    }

    /// Brings the anchored ends of every line to their rectangles.
    pub fn follow_line_anchors(&mut self)
        ensures
            final(self)@ == old(self)@.lines_followed(),
    {
        let mut i: usize = 0;
        while i < self.lines.len()
            invariant
                0 <= i <= self.lines@.len(),
                self.lines@.len() == old(self).lines@.len(),
                self.rectangles == old(self).rectangles,
                self.texts == old(self).texts,
                forall|j: int|
                    0 <= j < i ==> #[trigger] self.lines@[j] == line_followed(
                        old(self)@.rectangles,
                        old(self)@.lines[j],
                    ),
                forall|j: int| i <= j < self.lines@.len() ==> #[trigger] self.lines@[j] == old(self).lines@[j],
            decreases self.lines.len() - i,
        {
            let moved: LineObject = self.line_followed(i);
            self.lines.set(i, moved);
            i = i + 1;
        }
        assert(self@.lines =~= old(self)@.lines_followed().lines);
    }

    /// Brings every anchored text to the middle of its rectangle, but for
    /// the text with the identifier `dragged`.
    pub fn follow_text_anchors(&mut self, dragged: Option<IdType>)
        ensures
            final(self)@ == old(self)@.texts_followed(dragged),
    {
        let mut i: usize = 0;
        while i < self.texts.len()
            invariant
                0 <= i <= self.texts@.len(),
                self.texts@.len() == old(self).texts@.len(),
                self.rectangles == old(self).rectangles,
                self.lines == old(self).lines,
                forall|j: int|
                    0 <= j < i ==> (#[trigger] self.texts@[j])@ == text_followed(
                        old(self)@.rectangles,
                        old(self)@.texts[j],
                        dragged,
                    ),
                forall|j: int|
                    i <= j < self.texts@.len() ==> (#[trigger] self.texts@[j])@ == old(self)@.texts[j],
            decreases self.texts.len() - i,
        {
            let anchor: Option<usize> = match self.texts[i].anchor_rect_id {
                Some(id) => self.rect_index(id),
                None => None,
            };
            match anchor {
                Some(k) => {
                    let is_dragged: bool = match dragged {
                        Some(id) => id == self.texts[i].id,
                        None => false,
                    };
                    if !is_dragged {
                        let mid: U16Point = self.rectangles[k].rect.midpoint();
                        self.texts[i].start = mid;
                    }
                },
                None => {},
            }
            i = i + 1;
        }
        assert(self@.texts =~= old(self)@.texts_followed(dragged).texts);
    }
}

impl Scene {
    /// Moves the rectangle `id` so that it starts at `start`.
    pub fn move_rect(&mut self, id: IdType, start: U16Point)
        ensures
            final(self)@ == old(self)@.rect_moved(id, start),
    {
        match self.rect_index(id) {
            Some(k) => {
                let mut moved: RectObject = self.rectangles[k];
                moved.rect.start = start;
                self.rectangles.set(k, moved);
            },
            None => {},
        }
    }

    /// Makes the rectangle `id` the one that `fixed` and `corner` span.
    pub fn resize_rect(&mut self, id: IdType, fixed: U16Point, corner: U16Point)
        ensures
            final(self)@ == old(self)@.rect_resized(id, fixed, corner),
    {
        match self.rect_index(id) {
            Some(k) => {
                let mut resized: RectObject = self.rectangles[k];
                resized.resize(fixed, corner);
                self.rectangles.set(k, resized);
            },
            None => {},
        }
    }

    /// Puts the start of the line `id` at `p`.
    pub fn move_line_start(&mut self, id: IdType, p: U16Point)
        ensures
            final(self)@ == old(self)@.line_start_moved(id, p),
    {
        match self.line_index(id) {
            Some(k) => {
                let mut moved: LineObject = self.lines[k];
                moved.line.start = p;
                self.lines.set(k, moved);
            },
            None => {},
        }
    }

    /// Puts the end of the line `id` at `p`.
    pub fn move_line_end(&mut self, id: IdType, p: U16Point)
        ensures
            final(self)@ == old(self)@.line_end_moved(id, p),
    {
        match self.line_index(id) {
            Some(k) => {
                let mut moved: LineObject = self.lines[k];
                moved.line.end = p;
                self.lines.set(k, moved);
            },
            None => {},
        }
    }

    /// Puts the text `id` at `p`.
    pub fn move_text(&mut self, id: IdType, p: U16Point)
        ensures
            final(self)@ == old(self)@.text_moved(id, p),
    {
        match self.text_index(id) {
            Some(k) => {
                self.texts[k].start = p;
                assert(self@.texts =~= old(self)@.text_moved(id, p).texts);
            },
            None => {},
        }
    }

    /// Anchors the start of the line `id` to the rectangle under it.
    pub fn update_line_start_anchor(&mut self, id: IdType)
        ensures
            final(self)@ == old(self)@.start_anchor_resolved(id),
    {
        match self.line_index(id) {
            Some(k) => {
                let mut anchored: LineObject = self.lines[k];
                anchored.start_anchor_rect_id = self.resolve_anchor(anchored.line.start);
                self.lines.set(k, anchored);
            },
            None => {},
        }
    }

    /// Anchors the end of the line `id` to the rectangle under it.
    pub fn update_line_end_anchor(&mut self, id: IdType)
        ensures
            final(self)@ == old(self)@.end_anchor_resolved(id),
    {
        match self.line_index(id) {
            Some(k) => {
                let mut anchored: LineObject = self.lines[k];
                anchored.end_anchor_rect_id = self.resolve_anchor(anchored.line.end);
                self.lines.set(k, anchored);
            },
            None => {},
        }
    }
}

/// The best rectangle for `p` among the first `n`: the smallest that holds
/// `p`, and of several such the first.
proof fn best_in_prefix(rects: Seq<RectObject>, p: U16Point, n: int) -> (b: int)
    requires
        0 <= n <= rects.len(),
        exists|j: int| 0 <= j < n && (#[trigger] rects[j]).rect.spec_is_point_on(p),
    ensures
        0 <= b < n,
        rects[b].rect.spec_is_point_on(p),
        forall|j: int|
            0 <= j < n && (#[trigger] rects[j]).rect.spec_is_point_on(p) ==> rects[b].rect.spec_area()
                < rects[j].rect.spec_area() || (rects[b].rect.spec_area()
                == rects[j].rect.spec_area() && b <= j),
    decreases n,
{
    if exists|j: int| 0 <= j < n - 1 && (#[trigger] rects[j]).rect.spec_is_point_on(p) {
        let b0 = best_in_prefix(rects, p, n - 1);
        if rects[n - 1].rect.spec_is_point_on(p) && rects[n - 1].rect.spec_area()
            < rects[b0].rect.spec_area() {
            n - 1
        } else {
            b0
        }
    } else {
        n - 1
    }
}

/// A point that some rectangle holds is anchored to a rectangle that holds
/// it, and to one that is no larger than any other that holds it: where
/// rectangles overlap, the smallest wins.
pub proof fn lemma_anchor_is_smallest(rects: Seq<RectObject>, p: U16Point, j: int)
    requires
        0 <= j < rects.len(),
        rects[j].rect.spec_is_point_on(p),
    ensures
        anchor_index(rects, p).is_some(),
        0 <= anchor_index(rects, p).unwrap() < rects.len(),
        rects[anchor_index(rects, p).unwrap()].rect.spec_is_point_on(p),
        rects[anchor_index(rects, p).unwrap()].rect.spec_area() <= rects[j].rect.spec_area(),
        anchor_at(rects, p) == Some(rects[anchor_index(rects, p).unwrap()].id),
{
    let b = best_in_prefix(rects, p, rects.len() as int);
    assert(is_anchor_index(rects, p, b));
    lemma_anchor_index_is(rects, p, b);
}

/// Where a text lies under `p`, deleting under `p` takes the first such
/// text and nothing else: every line and every rectangle stays, whether `p`
/// lies on it or not.
pub proof fn lemma_delete_prefers_text(s: SceneView, p: U16Point, i: int)
    requires
        0 <= i < s.texts.len(),
        s.texts[i].is_point_on(p),
    ensures
        first_true(text_on_hits(s.texts, p)).is_some(),
        0 <= first_true(text_on_hits(s.texts, p)).unwrap() <= i,
        s.deleted_under_point(p).texts == s.texts.remove(
            first_true(text_on_hits(s.texts, p)).unwrap(),
        ),
        s.deleted_under_point(p).lines == s.lines,
        s.deleted_under_point(p).rectangles == s.rectangles,
{
    let hits = text_on_hits(s.texts, p);
    assert(hits[i]);
    lemma_some_true_has_first(hits, i);
    let k = choose|k: int| is_first_true(hits, k) && k <= i;
    lemma_first_true_is(hits, k);
}

/// Where no text but a line lies under `p`, deleting under `p` takes the
/// first such line and nothing else.
pub proof fn lemma_delete_prefers_line(s: SceneView, p: U16Point, i: int)
    requires
        forall|j: int| 0 <= j < s.texts.len() ==> !(#[trigger] s.texts[j]).is_point_on(p),
        0 <= i < s.lines.len(),
        s.lines[i].spec_is_point_on(p),
    ensures
        first_true(line_on_hits(s.lines, p)).is_some(),
        0 <= first_true(line_on_hits(s.lines, p)).unwrap() <= i,
        s.deleted_under_point(p).lines == s.lines.remove(
            first_true(line_on_hits(s.lines, p)).unwrap(),
        ),
        s.deleted_under_point(p).texts == s.texts,
        s.deleted_under_point(p).rectangles == s.rectangles,
{
    lemma_first_true_none(text_on_hits(s.texts, p));
    let hits = line_on_hits(s.lines, p);
    assert(hits[i]);
    lemma_some_true_has_first(hits, i);
    let k = choose|k: int| is_first_true(hits, k) && k <= i;
    lemma_first_true_is(hits, k);
}

/// Among rectangles whose identifiers grow, a rectangle is the one that
/// its identifier finds.
pub proof fn lemma_rect_found_by_id(rects: Seq<RectObject>, i: int)
    requires
        0 <= i < rects.len(),
        forall|a: int, b: int|
            0 <= a < b < rects.len() ==> (#[trigger] rects[a]).id < (#[trigger] rects[b]).id,
    ensures
        first_true(rect_id_hits(rects, rects[i].id)) == Some(i),
        rect_by_id(rects, rects[i].id) == Some(rects[i]),
{
    let hits = rect_id_hits(rects, rects[i].id);
    assert(is_first_true(hits, i));
    lemma_first_true_is(hits, i);
}

} // verus!
