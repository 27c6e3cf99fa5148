use terge::line::Line;
use terge::objects::{color_code, color_name, Freehand, LineObject, RectObject, TextObject};
use terge::rect::Rect;
use terge::scene::Scene;

fn rect(id: u64, from: (u16, u16), to: (u16, u16)) -> RectObject {
    RectObject::new(id, 0, Rect::new_from_unordered_points(from, to))
}

fn text(id: u64, start: (u16, u16), lines: &[&str], anchor: Option<u64>) -> TextObject {
    TextObject::new(id, start, lines.iter().map(|s| s.to_string()).collect(), anchor, 0)
}

#[test]
fn anchor_prefers_the_smaller_rectangle() {
    let mut scene = Scene::new();
    scene.rectangles.push(rect(1, (0, 0), (10, 1)));
    scene.rectangles.push(rect(2, (1, 0), (3, 2)));
    assert_eq!(scene.rectangles[0].rect.area(), 10);
    assert_eq!(scene.rectangles[1].rect.area(), 4);
    assert_eq!(scene.resolve_anchor((2, 1)), Some(2));
    assert_eq!(scene.rectangle_under_point((2, 1)), Some(1));
    assert_eq!(scene.resolve_anchor((8, 1)), Some(1));
    assert_eq!(scene.resolve_anchor((2, 2)), Some(2));
    assert_eq!(scene.resolve_anchor((20, 20)), None);
    scene.rectangles.swap(0, 1);
    assert_eq!(scene.resolve_anchor((2, 1)), Some(2));
}

#[test]
fn anchor_takes_the_first_of_equal_rectangles() {
    let mut scene = Scene::new();
    scene.rectangles.push(rect(4, (0, 0), (4, 4)));
    scene.rectangles.push(rect(7, (2, 2), (6, 6)));
    assert_eq!(scene.resolve_anchor((3, 3)), Some(4));
    let mut huge = Scene::new();
    huge.rectangles.push(rect(1, (0, 0), (65535, 65535)));
    assert_eq!(huge.resolve_anchor((9, 9)), Some(1));
}

#[test]
fn rectangle_handles() {
    let r = rect(1, (2, 3), (6, 8));
    assert!(r.is_resize_point((6, 8)));
    assert!(!r.is_resize_point((6, 7)));
    assert!(!r.is_resize_point((2, 3)));
    assert!(r.is_drag_point((4, 3)));
    assert!(!r.is_drag_point((4, 8)));
    let mut scene = Scene::new();
    scene.rectangles.push(r);
    scene.rectangles.push(rect(2, (6, 8), (9, 9)));
    assert_eq!(scene.rectangle_resize_point_under_point((6, 8)), Some(0));
    assert_eq!(scene.rectangle_resize_point_under_point((9, 9)), Some(1));
    assert_eq!(scene.rectangle_resize_point_under_point((5, 5)), None);
    assert_eq!(scene.rectangle_header_under_point((6, 8)), Some(1));
    assert_eq!(scene.rectangle_header_under_point((6, 3)), Some(0));
    assert_eq!(scene.rectangle_header_under_point((6, 4)), None);
    assert_eq!(scene.rect_index(2), Some(1));
    assert_eq!(scene.rect_index(3), None);
}

#[test]
fn rectangle_resize_spans_the_two_corners() {
    let mut r = rect(5, (2, 3), (6, 8));
    r.resize((2, 3), (0, 10));
    assert_eq!((r.rect.start, r.rect.size), ((0, 3), (2, 7)));
    assert_eq!(r.id, 5);
    r.resize((4, 4), (4, 4));
    assert_eq!((r.rect.start, r.rect.size), ((4, 4), (0, 0)));
}

#[test]
fn line_object_with_and_without_a_bend() {
    let mut l = LineObject::new(3, Line { start: (0, 0), end: (4, 0) }, 2);
    assert_eq!(l.start_anchor_rect_id, None);
    assert_eq!(l.end_anchor_rect_id, None);
    assert_eq!(l.segment, None);
    assert!(l.is_drag_point((0, 0)));
    assert!(l.is_drag_point((4, 0)));
    assert!(!l.is_drag_point((2, 0)));
    assert!(l.is_point_on((2, 0)));
    assert!(!l.is_point_on((2, 2)));
    assert_eq!(l.start_line_segment().end, (4, 0));
    assert_eq!(l.end_line_segment().start, (0, 0));
    l.segment = Some((2, 2));
    assert!(!l.is_point_on((2, 0)));
    assert!(l.is_point_on((1, 1)));
    assert!(l.is_point_on((3, 1)));
    assert!(l.is_point_on((2, 2)));
    assert_eq!(l.start_line_segment().start, (0, 0));
    assert_eq!(l.start_line_segment().end, (2, 2));
    assert_eq!(l.end_line_segment().start, (2, 2));
    assert_eq!(l.end_line_segment().end, (4, 0));
}

#[test]
fn line_searches_find_the_first_line() {
    let mut scene = Scene::new();
    scene.lines.push(LineObject::new(1, Line { start: (0, 0), end: (4, 0) }, 0));
    scene.lines.push(LineObject::new(2, Line { start: (4, 0), end: (4, 4) }, 0));
    scene.lines.push(LineObject::new(3, Line { start: (0, 0), end: (0, 4) }, 0));
    assert_eq!(scene.line_with_start_under_point((0, 0)), Some(0));
    assert_eq!(scene.line_with_start_under_point((4, 0)), Some(1));
    assert_eq!(scene.line_with_start_under_point((4, 4)), None);
    assert_eq!(scene.line_with_end_under_point((4, 0)), Some(0));
    assert_eq!(scene.line_with_end_under_point((0, 4)), Some(2));
    assert_eq!(scene.line_with_end_under_point((0, 0)), None);
    assert_eq!(scene.line_under_point((4, 0)), Some(0));
    assert_eq!(scene.line_under_point((4, 2)), Some(1));
    assert_eq!(scene.line_under_point((2, 2)), None);
    assert_eq!(scene.line_index(3), Some(2));
    assert_eq!(scene.line_index(9), None);
}

#[test]
fn text_lines_start_at_the_text_or_round_its_anchor() {
    let free = text(1, (5, 7), &["hello", "you"], None);
    assert_eq!(free.line_start(0), (5, 7));
    assert_eq!(free.line_start(1), (5, 8));
    let anchored = text(2, (20, 10), &["hello!", "yo", "abcd", "x"], Some(9));
    assert_eq!(anchored.line_start(0), (17, 8));
    assert_eq!(anchored.line_start(1), (19, 9));
    assert_eq!(anchored.line_start(2), (18, 10));
    assert_eq!(anchored.line_start(3), (20, 11));
    let corner = text(3, (1, 0), &["hello", "you"], Some(9));
    assert_eq!(corner.line_start(0), (0, 0));
    assert_eq!(corner.line_start(1), (0, 0));
}

#[test]
fn text_hit_tests() {
    let t = text(1, (5, 7), &["hello", "", "you"], None);
    assert!(t.is_edit_point((5, 7)));
    assert!(!t.is_edit_point((6, 7)));
    assert!(t.is_point_on((5, 7)));
    assert!(t.is_point_on((10, 7)));
    assert!(!t.is_point_on((11, 7)));
    assert!(!t.is_point_on((4, 7)));
    assert!(t.is_point_on((5, 8)));
    assert!(!t.is_point_on((6, 8)));
    assert!(t.is_point_on((8, 9)));
    assert!(!t.is_point_on((9, 9)));
    assert!(!t.is_point_on((5, 10)));
    let wide = text(2, (0, 0), &["é"], None);
    assert!(wide.is_point_on((2, 0)));
    assert!(!wide.is_point_on((3, 0)));
}

#[test]
fn text_is_picked_up_inside_its_rectangle_or_at_its_start() {
    let mut scene = Scene::new();
    scene.rectangles.push(rect(1, (0, 0), (10, 10)));
    scene.texts.push(text(2, (5, 5), &["in"], Some(1)));
    scene.texts.push(text(3, (20, 20), &["out"], None));
    scene.texts.push(text(4, (30, 30), &["lost"], Some(99)));
    assert!(scene.is_text_editable_at(0, (1, 1)));
    assert!(scene.is_text_editable_at(0, (9, 9)));
    assert!(!scene.is_text_editable_at(0, (0, 5)));
    assert!(!scene.is_text_editable_at(0, (10, 5)));
    assert!(scene.is_text_editable_at(1, (20, 20)));
    assert!(!scene.is_text_editable_at(1, (21, 20)));
    assert!(scene.is_text_editable_at(2, (30, 30)));
    assert_eq!(scene.text_edit_under_point((5, 5)), Some(0));
    assert_eq!(scene.text_edit_under_point((20, 20)), Some(1));
    assert_eq!(scene.text_edit_under_point((30, 30)), Some(2));
    assert_eq!(scene.text_edit_under_point((15, 15)), None);
    assert_eq!(scene.text_index(4), Some(2));
    assert_eq!(scene.text_index(1), None);
}

#[test]
fn delete_takes_the_text_first() {
    let mut scene = Scene::new();
    scene.rectangles.push(rect(1, (0, 0), (10, 10)));
    scene.lines.push(LineObject::new(2, Line { start: (0, 5), end: (10, 5) }, 0));
    scene.texts.push(text(3, (3, 5), &["hello"], None));
    scene.texts.push(text(4, (4, 5), &["again"], None));
    scene.delete_under_point((4, 5));
    assert_eq!(scene.texts.len(), 1);
    assert_eq!(scene.texts[0].id, 4);
    assert_eq!(scene.lines.len(), 1);
    assert_eq!(scene.rectangles.len(), 1);
    scene.delete_under_point((4, 5));
    assert_eq!(scene.texts.len(), 0);
    assert_eq!(scene.lines.len(), 1);
    scene.delete_under_point((4, 5));
    assert_eq!(scene.lines.len(), 0);
    assert_eq!(scene.rectangles.len(), 1);
    scene.delete_under_point((4, 5));
    assert_eq!(scene.rectangles.len(), 0);
    scene.delete_under_point((4, 5));
}

#[test]
fn delete_takes_the_smallest_rectangle() {
    let mut scene = Scene::new();
    scene.rectangles.push(rect(1, (0, 0), (10, 10)));
    scene.rectangles.push(rect(2, (2, 2), (4, 4)));
    scene.rectangles.push(rect(3, (20, 20), (30, 30)));
    scene.delete_under_point((3, 3));
    let ids: Vec<u64> = scene.rectangles.iter().map(|r| r.id).collect();
    assert_eq!(ids, vec![1, 3]);
    scene.delete_under_point((50, 50));
    assert_eq!(scene.rectangles.len(), 2);
}

#[test]
fn lines_follow_their_anchors() {
    let mut scene = Scene::new();
    scene.rectangles.push(rect(1, (0, 0), (10, 10)));
    scene.rectangles.push(rect(2, (20, 0), (30, 10)));
    let mut l = LineObject::new(3, Line { start: (1, 1), end: (29, 9) }, 0);
    l.start_anchor_rect_id = Some(1);
    l.end_anchor_rect_id = Some(2);
    scene.lines.push(l);
    let mut lost = LineObject::new(4, Line { start: (1, 1), end: (2, 2) }, 0);
    lost.start_anchor_rect_id = Some(77);
    scene.lines.push(lost);
    scene.follow_line_anchors();
    assert_eq!(scene.lines[0].line.start, (10, 6));
    assert_eq!(scene.lines[0].line.end, (20, 5));
    assert_eq!(scene.lines[1].line.start, (1, 1));
    assert_eq!(scene.lines[1].line.end, (2, 2));
    scene.follow_line_anchors();
    assert_eq!(scene.lines[0].line.start, (10, 5));
    assert_eq!(scene.lines[0].line.end, (20, 5));
}

#[test]
fn bent_line_follows_its_anchor_along_the_first_part() {
    let mut scene = Scene::new();
    scene.rectangles.push(rect(1, (0, 0), (10, 10)));
    let mut l = LineObject::new(2, Line { start: (5, 5), end: (40, 5) }, 0);
    l.start_anchor_rect_id = Some(1);
    l.segment = Some((5, 30));
    scene.lines.push(l);
    scene.follow_line_anchors();
    assert_eq!(scene.lines[0].line.start, (5, 10));
    assert_eq!(scene.lines[0].line.end, (40, 5));
}

#[test]
fn texts_follow_their_anchors_unless_dragged() {
    let mut scene = Scene::new();
    scene.rectangles.push(rect(1, (0, 0), (10, 10)));
    scene.texts.push(text(2, (1, 1), &["a"], Some(1)));
    scene.texts.push(text(3, (2, 2), &["b"], Some(1)));
    scene.texts.push(text(4, (3, 3), &["c"], None));
    scene.texts.push(text(5, (4, 4), &["d"], Some(42)));
    scene.follow_text_anchors(Some(3));
    let starts: Vec<(u16, u16)> = scene.texts.iter().map(|t| t.start).collect();
    assert_eq!(starts, vec![(5, 5), (2, 2), (3, 3), (4, 4)]);
    scene.follow_text_anchors(None);
    assert_eq!(scene.texts[1].start, (5, 5));
    assert_eq!(scene.texts[1].lines, vec!["b".to_string()]);
}

#[test]
fn scene_objects_are_changed_by_identifier() {
    let mut scene = Scene::new();
    scene.rectangles.push(rect(1, (0, 0), (10, 10)));
    scene.lines.push(LineObject::new(2, Line { start: (1, 1), end: (50, 50) }, 0));
    scene.texts.push(text(3, (3, 3), &["c"], None));
    scene.move_rect(1, (7, 8));
    assert_eq!((scene.rectangles[0].rect.start, scene.rectangles[0].rect.size), ((7, 8), (10, 10)));
    scene.move_rect(9, (1, 1));
    assert_eq!(scene.rectangles[0].rect.start, (7, 8));
    scene.resize_rect(1, (7, 8), (2, 20));
    assert_eq!((scene.rectangles[0].rect.start, scene.rectangles[0].rect.size), ((2, 8), (5, 12)));
    scene.move_line_start(2, (4, 10));
    scene.move_line_end(2, (60, 60));
    assert_eq!(scene.lines[0].line.start, (4, 10));
    assert_eq!(scene.lines[0].line.end, (60, 60));
    scene.update_line_start_anchor(2);
    scene.update_line_end_anchor(2);
    assert_eq!(scene.lines[0].start_anchor_rect_id, Some(1));
    assert_eq!(scene.lines[0].end_anchor_rect_id, None);
    scene.move_text(3, (9, 9));
    assert_eq!(scene.texts[0].start, (9, 9));
    scene.move_text(4, (1, 1));
    assert_eq!(scene.texts[0].start, (9, 9));
}

#[test]
fn colours_of_the_palette() {
    let codes: Vec<u8> = (0..10).map(color_code).collect();
    assert_eq!(codes, vec![39, 31, 33, 90, 91, 92, 93, 94, 95, 96]);
    let names: Vec<&str> = (0..10).map(color_name).collect();
    assert_eq!(
        names,
        vec![
            "Default color",
            "Red",
            "Yellow",
            "Dark gray",
            "Light red",
            "Light green",
            "Light yellow",
            "Light blue",
            "Light magenta",
            "Light cyan"
        ]
    );
}

#[test]
fn freehand_keeps_its_points() {
    let f = Freehand::new(vec![(1, 1), (2, 2)], 3);
    assert_eq!(f.points, vec![(1, 1), (2, 2)]);
    assert_eq!(f.color, 3);
}
