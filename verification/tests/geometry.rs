use terge::common::{
    Arithmetics, TextHorizontalAlign, TextVercticalAlign, between_u16_inclusive,
    i32_div_toward_zero, i32point_to_u16point, multiline_text_line_start, point_pair_minmax,
    u16_range_overlap, u16_value_included_in_range, u16point_to_i32point,
};
use terge::intersection::{intersection_of_rect_and_anchored_line, intersection_of_rect_and_line};
use terge::line::{Line, LinePointsIterator};
use terge::rect::Rect;

#[test]
fn minmax_orders_both_axes() {
    assert_eq!(point_pair_minmax((7, 2), (3, 9)), (3, 2, 7, 9));
    assert_eq!(point_pair_minmax((3, 9), (7, 2)), (3, 2, 7, 9));
    assert_eq!(point_pair_minmax((4, 4), (4, 4)), (4, 4, 4, 4));
}

#[test]
fn between_takes_bounds_in_either_order() {
    assert!(between_u16_inclusive(2, 5, 2));
    assert!(between_u16_inclusive(2, 5, 5));
    assert!(between_u16_inclusive(5, 2, 3));
    assert!(!between_u16_inclusive(5, 2, 6));
    assert!(!between_u16_inclusive(2, 5, 1));
    assert!(between_u16_inclusive(4, 4, 4));
}

#[test]
fn signed_points_are_clamped_to_the_grid() {
    assert_eq!(i32point_to_u16point((-1, 5)), (0, 5));
    assert_eq!(i32point_to_u16point((70000, -70000)), (65535, 0));
    assert_eq!(i32point_to_u16point((65535, 0)), (65535, 0));
    assert_eq!(u16point_to_i32point((65535, 3)), (65535, 3));
}

#[test]
fn range_inclusion_and_overlap() {
    assert!(u16_value_included_in_range(3, (3, 7)));
    assert!(u16_value_included_in_range(7, (3, 7)));
    assert!(!u16_value_included_in_range(8, (3, 7)));
    assert!(!u16_value_included_in_range(5, (7, 3)));
    assert!(u16_range_overlap((1, 4), (4, 9)));
    assert!(!u16_range_overlap((1, 4), (5, 9)));
    assert!(u16_range_overlap((5, 9), (1, 6)));
}

#[test]
fn point_arithmetic() {
    assert_eq!((3i32, -4i32).add((10, 10)), (13, 6));
    assert_eq!((3i32, -4i32).sub((10, 10)), (-7, -14));
    assert_eq!((7i32, -7i32).div(2), (3, -3));
    assert_eq!((7i32, -7i32).div(-2), (-3, 3));
    assert_eq!((65535u16, 1u16).add((1, 1)), (0, 2));
    assert_eq!((0u16, 5u16).sub((1, 2)), (65535, 3));
    assert_eq!((9u16, 8u16).div(2), (4, 4));
    assert_eq!(i32_div_toward_zero(i32::MIN, 2), i32::MIN / 2);
    assert_eq!(i32_div_toward_zero(-9, 4), -2);
}

#[test]
fn text_line_start_left_top() {
    let p = multiline_text_line_start(
        3,
        10,
        2,
        (5, 7),
        TextHorizontalAlign::Left,
        TextVercticalAlign::Top,
    );
    assert_eq!(p, (5, 9));
}

#[test]
fn text_line_start_centered() {
    let p = multiline_text_line_start(
        4,
        10,
        1,
        (20, 10),
        TextHorizontalAlign::Center,
        TextVercticalAlign::Center,
    );
    assert_eq!(p, (15, 9));
    let q = multiline_text_line_start(
        9,
        10,
        0,
        (2, 1),
        TextHorizontalAlign::Center,
        TextVercticalAlign::Center,
    );
    assert_eq!(q, (0, 0));
    let r = multiline_text_line_start(
        1,
        0,
        10,
        (0, 65530),
        TextHorizontalAlign::Left,
        TextVercticalAlign::Top,
    );
    assert_eq!(r, (0, 65535));
}

#[test]
fn rect_is_normalized_whatever_the_order() {
    let a = Rect::new_from_unordered_points((15, 10), (5, 5));
    let b = Rect::new_from_unordered_points((5, 5), (15, 10));
    assert_eq!(a.start, (5, 5));
    assert_eq!(a.size, (10, 5));
    assert_eq!(a.start, b.start);
    assert_eq!(a.size, b.size);
    assert_eq!(a.end(), (15, 10));
    let c = Rect::new_from_unordered_points((15, 5), (5, 10));
    assert_eq!((c.start, c.size), ((5, 5), (10, 5)));
    assert!(a.start.0 <= a.end().0 && a.start.1 <= a.end().1);
}

#[test]
fn rect_point_predicates() {
    let r = Rect::new_from_unordered_points((2, 3), (6, 8));
    assert!(r.is_point_on_header((2, 3)));
    assert!(r.is_point_on_header((6, 3)));
    assert!(!r.is_point_on_header((7, 3)));
    assert!(!r.is_point_on_header((4, 4)));
    assert!(r.is_point_on((2, 3)));
    assert!(r.is_point_on((6, 8)));
    assert!(!r.is_point_on((6, 9)));
    assert!(!r.is_point_on((1, 5)));
    assert!(r.is_point_inside((3, 4)));
    assert!(r.is_point_inside((5, 7)));
    assert!(!r.is_point_inside((2, 4)));
    assert!(!r.is_point_inside((6, 7)));
    assert!(!r.is_point_inside((3, 8)));
    assert_eq!(r.midpoint(), (4, 5));
    assert_eq!(r.area(), 20);
    let flat = Rect::new_from_unordered_points((4, 4), (4, 4));
    assert!(!flat.is_point_inside((4, 4)));
    assert!(flat.is_point_on((4, 4)));
    assert_eq!(flat.area(), 0);
}

#[test]
fn rect_at_the_edge_of_the_grid() {
    let r = Rect { start: (65530, 65530), size: (10, 10) };
    assert_eq!(r.end(), (65535, 65535));
    assert_eq!(r.midpoint(), (65535, 65535));
    assert!(r.is_point_on((65535, 65535)));
    assert!(r.is_point_inside((65535, 65535)));
    let big = Rect::new_from_unordered_points((0, 0), (65535, 65535));
    assert_eq!(big.area(), 65535u32 * 65535u32);
}

#[test]
fn line_points_run_from_start_to_end() {
    let line = Line { start: (0, 0), end: (4, 2) };
    assert_eq!(line.points(), vec![(0, 0), (1, 1), (2, 1), (3, 2), (4, 2)]);
    let back = Line { start: (4, 2), end: (0, 0) };
    assert_eq!(back.points(), vec![(4, 2), (3, 2), (2, 1), (1, 1), (0, 0)]);
    let steep = Line { start: (3, 0), end: (1, 5) };
    assert_eq!(steep.points(), vec![(3, 0), (3, 1), (2, 2), (2, 3), (1, 4), (1, 5)]);
}

#[test]
fn line_points_first_and_last_are_the_ends() {
    for &(s, e) in &[((0u16, 0u16), (9u16, 3u16)), ((9, 3), (0, 0)), ((5, 9), (5, 0)), ((0, 7), (65535, 7)), ((3, 3), (0, 9))] {
        let pts = Line { start: s, end: e }.points();
        assert_eq!(pts[0], s);
        assert_eq!(pts[pts.len() - 1], e);
    }
}

#[test]
fn line_points_advance_one_along_the_major_axis() {
    let line = Line { start: (10, 2), end: (1, 6) };
    let pts = line.points();
    assert_eq!(pts.len(), 10);
    for w in pts.windows(2) {
        assert_eq!(w[0].0 - w[1].0, 1);
    }
    let line = Line { start: (2, 1), end: (4, 8) };
    let pts = line.points();
    assert_eq!(pts.len(), 8);
    for w in pts.windows(2) {
        assert_eq!(w[1].1 - w[0].1, 1);
    }
}

#[test]
fn line_of_one_point_yields_that_point() {
    let line = Line { start: (7, 7), end: (7, 7) };
    assert_eq!(line.points(), vec![(7, 7)]);
    assert!(line.is_point_on((7, 7)));
    assert!(!line.is_point_on((7, 8)));
    let mut it = line.iter();
    assert_eq!(it.next(), Some((7, 7)));
    assert_eq!(it.next(), None);
}

#[test]
fn line_reaches_the_first_column_and_row() {
    let line = Line { start: (3, 0), end: (0, 0) };
    assert_eq!(line.points(), vec![(3, 0), (2, 0), (1, 0), (0, 0)]);
    let line = Line { start: (0, 2), end: (0, 0) };
    assert_eq!(line.points(), vec![(0, 2), (0, 1), (0, 0)]);
}

#[test]
fn line_iterator_hands_out_each_point_once() {
    let mut it = LinePointsIterator::new((1, 1), (3, 2));
    assert_eq!(it.next(), Some((1, 1)));
    assert_eq!(it.next(), Some((2, 2)));
    assert_eq!(it.next(), Some((3, 2)));
    assert_eq!(it.next(), None);
    assert_eq!(it.next(), None);
}

#[test]
fn line_hit_test_agrees_with_its_points() {
    let line = Line { start: (2, 9), end: (11, 4) };
    let pts = line.points();
    for p in &pts {
        assert!(line.is_point_on(*p));
    }
    for x in 0..14u16 {
        for y in 0..12u16 {
            assert_eq!(line.is_point_on((x, y)), pts.contains(&(x, y)));
        }
    }
    assert!(!line.is_point_on((1, 9)));
    assert!(!line.is_point_on((12, 4)));
    assert!(!line.is_point_on((5, 3)));
    assert!(!line.is_point_on((5, 10)));
}

#[test]
fn line_ranges_are_ordered() {
    let line = Line { start: (9, 2), end: (4, 7) };
    assert_eq!(line.x_range(), 4..=9);
    assert_eq!(line.y_range(), 2..=7);
    assert!(line.x_range().contains(&4));
    assert!(!line.y_range().contains(&8));
}

#[test]
fn line_rounds_a_tie_up() {
    let line = Line { start: (0, 0), end: (2, 1) };
    assert_eq!(line.points(), vec![(0, 0), (1, 1), (2, 1)]);
    let line = Line { start: (0, 1), end: (2, 0) };
    assert_eq!(line.points(), vec![(0, 1), (1, 1), (2, 0)]);
    assert_eq!(line.nth_point(1), (1, 1));
}

#[test]
fn intersection_of_a_diagonal_with_a_square() {
    let rect = Rect::new_from_unordered_points((0, 0), (10, 10));
    let line = Line { start: (5, 5), end: (20, 20) };
    assert_eq!(intersection_of_rect_and_line(&rect, &line), vec![(10, 10), (10, 10)]);
    assert_eq!(intersection_of_rect_and_anchored_line(&rect, &line), Some((10, 10)));
}

#[test]
fn intersection_through_all_four_edges() {
    let rect = Rect::new_from_unordered_points((2, 2), (6, 6));
    let line = Line { start: (0, 0), end: (8, 8) };
    assert_eq!(
        intersection_of_rect_and_line(&rect, &line),
        vec![(2, 2), (6, 6), (2, 2), (6, 6)]
    );
    let line = Line { start: (0, 4), end: (8, 5) };
    assert_eq!(intersection_of_rect_and_line(&rect, &line), vec![(2, 4), (6, 5)]);
}

#[test]
fn intersection_with_vertical_and_horizontal_lines() {
    let rect = Rect::new_from_unordered_points((2, 2), (6, 6));
    let vertical = Line { start: (4, 0), end: (4, 9) };
    assert_eq!(intersection_of_rect_and_line(&rect, &vertical), vec![(4, 2), (4, 6)]);
    let horizontal = Line { start: (9, 3), end: (0, 3) };
    assert_eq!(intersection_of_rect_and_line(&rect, &horizontal), vec![(2, 3), (6, 3)]);
    let along_the_edge = Line { start: (0, 2), end: (9, 2) };
    assert_eq!(intersection_of_rect_and_line(&rect, &along_the_edge), vec![(2, 2), (6, 2)]);
    let point = Line { start: (4, 4), end: (4, 4) };
    assert_eq!(intersection_of_rect_and_line(&rect, &point), vec![]);
    assert_eq!(intersection_of_rect_and_anchored_line(&rect, &point), None);
}

#[test]
fn intersection_misses_a_rectangle_beside_the_line() {
    let rect = Rect::new_from_unordered_points((10, 0), (14, 3));
    let line = Line { start: (0, 0), end: (5, 20) };
    assert_eq!(intersection_of_rect_and_line(&rect, &line), vec![]);
    let inside = Line { start: (11, 1), end: (13, 2) };
    assert_eq!(intersection_of_rect_and_line(&rect, &inside), vec![]);
}
