use terge::action::{Action, Intent};
use terge::app::App;
use terge::event_group::{
    Event, EventGroup, KeyCode, KeyEvent, KeyModifiers, MouseButton, MouseEvent, MouseEventKind,
};

fn down(x: u16, y: u16) -> Event {
    Event::Mouse(MouseEvent { kind: MouseEventKind::Down(MouseButton::Left), column: x, row: y })
}

fn up(x: u16, y: u16) -> Event {
    Event::Mouse(MouseEvent { kind: MouseEventKind::Up(MouseButton::Left), column: x, row: y })
}

fn moved(x: u16, y: u16) -> Event {
    Event::Mouse(MouseEvent { kind: MouseEventKind::Moved, column: x, row: y })
}

fn key(code: KeyCode) -> Event {
    Event::Key(KeyEvent { code, modifiers: KeyModifiers::none(), pressed: true })
}

fn alt_key(code: KeyCode) -> Event {
    Event::Key(KeyEvent {
        code,
        modifiers: KeyModifiers { shift: false, control: false, alt: true },
        pressed: true,
    })
}

fn tick(app: &mut App, events: Vec<Event>) {
    assert!(app.update(&EventGroup { events }, 1000));
}

fn draw_rect(app: &mut App, from: (u16, u16), to: (u16, u16)) {
    tick(app, vec![key(KeyCode::Char('r'))]);
    tick(app, vec![down(from.0, from.1)]);
    tick(app, vec![up(to.0, to.1)]);
}

fn draw_line(app: &mut App, from: (u16, u16), to: (u16, u16)) {
    tick(app, vec![key(KeyCode::Char('l'))]);
    tick(app, vec![down(from.0, from.1)]);
    tick(app, vec![up(to.0, to.1)]);
}

fn write_text(app: &mut App, at: (u16, u16), text: &str) {
    tick(app, vec![moved(at.0, at.1), key(KeyCode::Char('t'))]);
    tick(app, vec![down(at.0, at.1)]);
    tick(app, vec![up(at.0, at.1)]);
    for c in text.chars() {
        tick(app, vec![key(KeyCode::Char(c))]);
    }
    tick(app, vec![key(KeyCode::Enter)]);
}

#[test]
fn editor_starts_empty() {
    let app = App::new();
    assert_eq!(app.intent(), Intent::Rect);
    assert!(app.action().is_none());
    assert_eq!(app.current_mouse_pos(), (0, 0));
    assert_eq!(app.current_color(), 0);
    assert_eq!(app.last_id(), 0);
    assert!(app.scene().rectangles.is_empty());
    assert!(app.scene().lines.is_empty());
    assert!(app.scene().texts.is_empty());
}

#[test]
fn scenario_draw_a_rectangle() {
    let mut app = App::new();
    tick(&mut app, vec![down(5, 5)]);
    assert!(matches!(app.action(), Some(Action::Rect(a)) if a.start == (5, 5)));
    assert!(app.scene().rectangles.is_empty());
    tick(&mut app, vec![up(15, 10)]);
    assert!(app.action().is_none());
    assert_eq!(app.scene().rectangles.len(), 1);
    let r = &app.scene().rectangles[0];
    assert_eq!(r.id, 1);
    assert_eq!(r.rect.start, (5, 5));
    assert_eq!(r.rect.size, (10, 5));
    assert!(app.scene().lines.is_empty());
    assert!(app.scene().texts.is_empty());
}

#[test]
fn rectangle_drawn_backwards_is_normalized() {
    let mut app = App::new();
    tick(&mut app, vec![down(15, 10), up(5, 5)]);
    assert_eq!(app.scene().rectangles.len(), 1);
    assert_eq!(app.scene().rectangles[0].rect.start, (5, 5));
    assert_eq!(app.scene().rectangles[0].rect.size, (10, 5));
    let mut app = App::new();
    tick(&mut app, vec![down(15, 10)]);
    tick(&mut app, vec![up(5, 5)]);
    assert_eq!(app.scene().rectangles[0].rect.start, (5, 5));
    assert_eq!(app.scene().rectangles[0].rect.size, (10, 5));
}

#[test]
fn scenario_anchored_line_follow() {
    let mut app = App::new();
    draw_rect(&mut app, (0, 0), (10, 10));
    assert_eq!(app.scene().rectangles[0].id, 1);
    draw_line(&mut app, (5, 5), (20, 20));
    assert_eq!(app.scene().lines.len(), 1);
    let line = &app.scene().lines[0];
    assert_eq!(line.id, 2);
    assert_eq!(line.start_anchor_rect_id, Some(1));
    assert_eq!(line.end_anchor_rect_id, None);
    assert_eq!(line.line.start, (10, 10));
    assert_ne!(line.line.start, app.scene().rectangles[0].rect.midpoint());
    assert_eq!(line.line.end, (20, 20));
    tick(&mut app, vec![]);
    assert_eq!(app.scene().lines[0].line.start, (10, 10));
}

#[test]
fn anchored_line_falls_back_to_the_midpoint() {
    let mut app = App::new();
    draw_rect(&mut app, (0, 0), (10, 10));
    draw_line(&mut app, (2, 3), (7, 6));
    let line = &app.scene().lines[0];
    assert_eq!(line.start_anchor_rect_id, Some(1));
    assert_eq!(line.end_anchor_rect_id, Some(1));
    assert_eq!(line.line.start, (5, 5));
    assert_eq!(line.line.end, (5, 5));
}

#[test]
fn scenario_text_edit_round_trip() {
    let mut app = App::new();
    tick(&mut app, vec![key(KeyCode::Char('t'))]);
    assert_eq!(app.intent(), Intent::Text);
    tick(&mut app, vec![down(3, 3)]);
    assert!(matches!(app.action(), Some(Action::Text(_))));
    tick(&mut app, vec![up(3, 3)]);
    assert!(matches!(app.action(), Some(Action::Text(_))));
    tick(&mut app, vec![key(KeyCode::Char('h')), key(KeyCode::Char('i'))]);
    assert!(app.scene().texts.is_empty());
    tick(&mut app, vec![key(KeyCode::Enter)]);
    assert!(app.action().is_none());
    assert_eq!(app.scene().texts.len(), 1);
    let text = &app.scene().texts[0];
    assert_eq!(text.lines, vec!["hi".to_string()]);
    assert_eq!(text.start, (3, 3));
    assert_eq!(text.id, 1);
    assert_eq!(text.anchor_rect_id, None);
    assert!(app.scene().rectangles.is_empty());
    assert!(app.scene().lines.is_empty());
}

#[test]
fn text_keys_do_not_select_tools_while_editing() {
    let mut app = App::new();
    tick(&mut app, vec![key(KeyCode::Char('t')), down(1, 1)]);
    tick(&mut app, vec![key(KeyCode::Char('r')), key(KeyCode::Char('5')), key(KeyCode::Delete)]);
    assert_eq!(app.intent(), Intent::Text);
    assert_eq!(app.current_color(), 0);
    tick(&mut app, vec![alt_key(KeyCode::Enter), key(KeyCode::Char('x')), key(KeyCode::Enter)]);
    assert_eq!(app.scene().texts[0].lines, vec!["r5".to_string(), "x".to_string()]);
}

#[test]
fn released_keys_are_ignored() {
    let mut app = App::new();
    let release = Event::Key(KeyEvent {
        code: KeyCode::Char('l'),
        modifiers: KeyModifiers::none(),
        pressed: false,
    });
    tick(&mut app, vec![release]);
    assert_eq!(app.intent(), Intent::Rect);
}

#[test]
fn scenario_reentrant_rejection() {
    let mut app = App::new();
    tick(&mut app, vec![down(5, 5)]);
    tick(&mut app, vec![down(8, 8)]);
    assert!(matches!(app.action(), Some(Action::Rect(a)) if a.start == (5, 5)));
    assert!(app.scene().rectangles.is_empty());
    assert_eq!(app.last_id(), 0);
    let mut app = App::new();
    draw_rect(&mut app, (0, 0), (4, 4));
    tick(&mut app, vec![down(20, 20)]);
    tick(&mut app, vec![moved(4, 4)]);
    tick(&mut app, vec![down(4, 4)]);
    assert!(matches!(app.action(), Some(Action::Rect(a)) if a.start == (20, 20)));
    assert_eq!(app.scene().rectangles.len(), 1);
    app.start_action((1, 1), 0);
    assert!(matches!(app.action(), Some(Action::Rect(a)) if a.start == (20, 20)));
}

#[test]
fn drag_keeps_the_grab_offset() {
    let mut app = App::new();
    draw_rect(&mut app, (5, 5), (15, 10));
    tick(&mut app, vec![down(7, 5)]);
    assert!(matches!(
        app.action(),
        Some(Action::DragRectangle(a)) if a.rectangle_id == 1 && a.offset == (2, 0)
    ));
    tick(&mut app, vec![moved(20, 8)]);
    assert_eq!(app.scene().rectangles[0].rect.start, (18, 8));
    assert_eq!(app.scene().rectangles[0].rect.size, (10, 5));
    tick(&mut app, vec![moved(1, 3)]);
    assert_eq!(app.scene().rectangles[0].rect.start, (0, 3));
    tick(&mut app, vec![moved(2, 0)]);
    assert_eq!(app.scene().rectangles[0].rect.start, (0, 0));
    tick(&mut app, vec![moved(30, 30)]);
    assert_eq!(app.scene().rectangles[0].rect.start, (28, 30));
    tick(&mut app, vec![up(40, 40)]);
    assert!(app.action().is_none());
    assert_eq!(app.scene().rectangles[0].rect.start, (28, 30));
    tick(&mut app, vec![moved(3, 3)]);
    assert_eq!(app.scene().rectangles[0].rect.start, (28, 30));
}

#[test]
fn resize_follows_the_pointer_from_the_fixed_corner() {
    let mut app = App::new();
    draw_rect(&mut app, (5, 5), (15, 10));
    tick(&mut app, vec![moved(15, 10)]);
    tick(&mut app, vec![down(15, 10)]);
    assert!(matches!(
        app.action(),
        Some(Action::ResizeRectangle(a)) if a.rectangle_id == 1 && a.orig_start == (5, 5)
    ));
    tick(&mut app, vec![moved(8, 20)]);
    assert_eq!(app.scene().rectangles[0].rect.start, (5, 5));
    assert_eq!(app.scene().rectangles[0].rect.size, (3, 15));
    tick(&mut app, vec![moved(2, 1)]);
    assert_eq!(app.scene().rectangles[0].rect.start, (2, 1));
    assert_eq!(app.scene().rectangles[0].rect.size, (3, 4));
    tick(&mut app, vec![up(2, 1)]);
    assert!(app.action().is_none());
    assert_eq!(app.scene().rectangles.len(), 1);
}

#[test]
fn resize_handle_comes_before_the_header() {
    let mut app = App::new();
    draw_rect(&mut app, (5, 5), (15, 5));
    tick(&mut app, vec![down(15, 5)]);
    assert!(matches!(app.action(), Some(Action::ResizeRectangle(_))));
}

#[test]
fn dragging_a_line_end_clears_and_renews_its_anchor() {
    let mut app = App::new();
    draw_rect(&mut app, (0, 0), (10, 10));
    draw_rect(&mut app, (30, 0), (40, 10));
    draw_line(&mut app, (5, 5), (20, 5));
    assert_eq!(app.scene().lines[0].start_anchor_rect_id, Some(1));
    assert_eq!(app.scene().lines[0].line.start, (10, 5));
    tick(&mut app, vec![down(10, 5)]);
    assert!(matches!(app.action(), Some(Action::DragLineStart(a)) if a.line_id == 3));
    assert_eq!(app.scene().lines[0].start_anchor_rect_id, None);
    tick(&mut app, vec![moved(35, 5)]);
    assert_eq!(app.scene().lines[0].line.start, (35, 5));
    assert_eq!(app.scene().lines[0].line.end, (20, 5));
    tick(&mut app, vec![up(35, 5)]);
    assert!(app.action().is_none());
    assert_eq!(app.scene().lines[0].start_anchor_rect_id, Some(2));
    assert_eq!(app.scene().lines[0].line.start, (30, 5));
    tick(&mut app, vec![down(20, 5)]);
    assert!(matches!(app.action(), Some(Action::DragLineEnd(a)) if a.line_id == 3));
    tick(&mut app, vec![moved(50, 50)]);
    tick(&mut app, vec![up(50, 50)]);
    assert!(app.action().is_none());
    assert_eq!(app.scene().lines[0].end_anchor_rect_id, None);
    assert_eq!(app.scene().lines[0].line.end, (50, 50));
    assert_eq!(app.scene().lines[0].line.start, (37, 10));
    assert_eq!(app.scene().lines[0].start_anchor_rect_id, Some(2));
}

#[test]
fn text_in_a_rectangle_is_anchored_and_follows_it() {
    let mut app = App::new();
    draw_rect(&mut app, (0, 0), (10, 10));
    write_text(&mut app, (2, 2), "ab");
    let text = &app.scene().texts[0];
    assert_eq!(text.anchor_rect_id, Some(1));
    assert_eq!(text.start, (5, 5));
    tick(&mut app, vec![down(3, 0)]);
    tick(&mut app, vec![moved(13, 4)]);
    assert_eq!(app.scene().rectangles[0].rect.start, (10, 4));
    assert_eq!(app.scene().texts[0].start, (15, 9));
}

#[test]
fn editing_a_text_takes_it_out_of_the_scene_until_committed() {
    let mut app = App::new();
    write_text(&mut app, (3, 3), "hi");
    assert_eq!(app.scene().texts[0].id, 1);
    tick(&mut app, vec![down(3, 3)]);
    assert!(matches!(app.action(), Some(Action::Text(a)) if a.start == (3, 3)));
    assert!(app.scene().texts.is_empty());
    tick(&mut app, vec![key(KeyCode::Backspace), key(KeyCode::Char('o'))]);
    tick(&mut app, vec![key(KeyCode::Enter)]);
    assert_eq!(app.scene().texts.len(), 1);
    assert_eq!(app.scene().texts[0].lines, vec!["ho".to_string()]);
    assert_eq!(app.scene().texts[0].id, 2);
}

#[test]
fn anchored_text_is_edited_from_inside_its_rectangle() {
    let mut app = App::new();
    draw_rect(&mut app, (0, 0), (10, 10));
    write_text(&mut app, (2, 2), "ab");
    tick(&mut app, vec![moved(40, 40), key(KeyCode::Char('r'))]);
    tick(&mut app, vec![moved(10, 3)]);
    tick(&mut app, vec![down(10, 3)]);
    assert!(matches!(app.action(), Some(Action::Rect(_))));
    tick(&mut app, vec![up(10, 3)]);
    tick(&mut app, vec![moved(8, 8)]);
    tick(&mut app, vec![down(8, 8)]);
    assert!(matches!(app.action(), Some(Action::Text(_))));
    assert!(app.scene().texts.is_empty());
}

#[test]
fn middle_button_begins_a_text_only_when_idle() {
    let mut app = App::new();
    let middle = |x, y| {
        Event::Mouse(MouseEvent {
            kind: MouseEventKind::Down(MouseButton::Middle),
            column: x,
            row: y,
        })
    };
    tick(&mut app, vec![middle(4, 6)]);
    assert!(matches!(app.action(), Some(Action::Text(a)) if a.start == (4, 6)));
    tick(&mut app, vec![key(KeyCode::Char('a'))]);
    tick(&mut app, vec![middle(9, 9)]);
    assert!(matches!(app.action(), Some(Action::Text(a)) if a.start == (4, 6)));
    tick(&mut app, vec![key(KeyCode::Enter)]);
    assert_eq!(app.scene().texts[0].lines, vec!["a".to_string()]);
}

#[test]
fn digits_select_the_colour_of_new_objects() {
    let mut app = App::new();
    tick(&mut app, vec![key(KeyCode::Char('7'))]);
    assert_eq!(app.current_color(), 7);
    draw_rect(&mut app, (1, 1), (3, 3));
    assert_eq!(app.scene().rectangles[0].color, 7);
    tick(&mut app, vec![key(KeyCode::Char('0'))]);
    assert_eq!(app.current_color(), 0);
    tick(&mut app, vec![key(KeyCode::Char('z'))]);
    assert_eq!(app.current_color(), 0);
    assert_eq!(app.intent(), Intent::Rect);
}

#[test]
fn letters_select_the_tool() {
    let mut app = App::new();
    tick(&mut app, vec![key(KeyCode::Char('l'))]);
    assert_eq!(app.intent(), Intent::Line);
    tick(&mut app, vec![key(KeyCode::Char('p'))]);
    assert_eq!(app.intent(), Intent::Pointer);
    tick(&mut app, vec![key(KeyCode::Char('f'))]);
    assert_eq!(app.intent(), Intent::Freehand);
    tick(&mut app, vec![key(KeyCode::Char('t'))]);
    assert_eq!(app.intent(), Intent::Text);
    tick(&mut app, vec![key(KeyCode::Char('r'))]);
    assert_eq!(app.intent(), Intent::Rect);
}

#[test]
fn delete_key_removes_the_text_before_the_line_and_the_rectangle() {
    let mut app = App::new();
    draw_rect(&mut app, (2, 2), (10, 10));
    draw_line(&mut app, (0, 6), (20, 6));
    assert_eq!(app.scene().lines[0].start_anchor_rect_id, None);
    assert_eq!(app.scene().lines[0].end_anchor_rect_id, None);
    write_text(&mut app, (5, 5), "hello");
    assert_eq!(app.scene().texts[0].anchor_rect_id, Some(1));
    assert_eq!(app.scene().texts[0].start, (6, 6));
    assert_eq!(app.scene().texts[0].line_start(0), (4, 6));
    tick(&mut app, vec![moved(5, 6), key(KeyCode::Char('r'))]);
    assert!(app.scene().texts[0].is_point_on((5, 6)));
    assert!(app.scene().lines[0].is_point_on((5, 6)));
    assert!(app.scene().rectangles[0].rect.is_point_on((5, 6)));
    tick(&mut app, vec![key(KeyCode::Delete)]);
    assert_eq!(app.scene().texts.len(), 0);
    assert_eq!(app.scene().lines.len(), 1);
    assert_eq!(app.scene().rectangles.len(), 1);
    tick(&mut app, vec![key(KeyCode::Delete)]);
    assert_eq!(app.scene().lines.len(), 0);
    assert_eq!(app.scene().rectangles.len(), 1);
    tick(&mut app, vec![key(KeyCode::Delete)]);
    assert_eq!(app.scene().rectangles.len(), 0);
    tick(&mut app, vec![key(KeyCode::Delete)]);
    assert_eq!(app.last_id(), 3);
}

#[test]
fn deleting_a_rectangle_leaves_the_anchor_dangling() {
    let mut app = App::new();
    draw_rect(&mut app, (0, 0), (10, 10));
    draw_line(&mut app, (5, 5), (20, 20));
    tick(&mut app, vec![moved(1, 1)]);
    tick(&mut app, vec![key(KeyCode::Delete)]);
    assert!(app.scene().rectangles.is_empty());
    assert_eq!(app.scene().lines[0].start_anchor_rect_id, Some(1));
    tick(&mut app, vec![]);
    assert_eq!(app.scene().lines[0].line.start, (10, 10));
    draw_rect(&mut app, (0, 0), (2, 2));
    assert_eq!(app.scene().rectangles[0].id, 3);
}

#[test]
fn pointer_tool_leaves_a_trace_that_expires() {
    let mut app = App::new();
    app.update(&EventGroup { events: vec![key(KeyCode::Char('p'))] }, 100);
    app.update(&EventGroup { events: vec![down(3, 3)] }, 100);
    assert!(matches!(app.action(), Some(Action::Pointer)));
    assert_eq!(app.click_trace().len(), 1);
    assert_eq!(app.click_trace()[0].pos, (3, 3));
    assert_eq!(app.click_trace()[0].deadline, 2100);
    assert_eq!(app.pointer_trace().len(), 1);
    app.update(&EventGroup { events: vec![moved(4, 3)] }, 600);
    app.update(&EventGroup { events: vec![] }, 700);
    assert_eq!(app.pointer_trace().len(), 2);
    assert_eq!(app.pointer_trace()[0].pos, (4, 3));
    assert_eq!(app.pointer_trace()[0].deadline, 2600);
    app.update(&EventGroup { events: vec![up(4, 3)] }, 2100);
    assert!(app.action().is_none());
    assert_eq!(app.pointer_trace().len(), 2);
    app.update(&EventGroup { events: vec![] }, 2101);
    assert_eq!(app.pointer_trace().len(), 1);
    assert_eq!(app.click_trace().len(), 0);
    app.update(&EventGroup { events: vec![] }, 2601);
    assert_eq!(app.pointer_trace().len(), 0);
}

#[test]
fn trace_deadline_saturates() {
    let mut app = App::new();
    app.update(&EventGroup { events: vec![key(KeyCode::Char('p')), down(1, 1)] }, u128::MAX - 5);
    assert_eq!(app.click_trace()[0].deadline, u128::MAX);
}

#[test]
fn freehand_stroke_joins_the_pointer_positions() {
    let mut app = App::new();
    tick(&mut app, vec![key(KeyCode::Char('f'))]);
    tick(&mut app, vec![down(2, 2)]);
    assert!(matches!(app.action(), Some(Action::Freehand(a)) if a.points == vec![(2, 2)]));
    tick(&mut app, vec![moved(5, 3)]);
    tick(&mut app, vec![moved(5, 3)]);
    tick(&mut app, vec![up(5, 5)]);
    assert!(app.action().is_none());
    assert_eq!(app.freehands().len(), 1);
    assert_eq!(app.freehands()[0].points, vec![(2, 2), (3, 2), (4, 3), (5, 3)]);
    assert_eq!(app.freehands()[0].color, 0);
}

#[test]
fn identifiers_are_never_reused() {
    let mut app = App::new();
    draw_rect(&mut app, (0, 0), (2, 2));
    draw_rect(&mut app, (10, 10), (12, 12));
    tick(&mut app, vec![moved(1, 1)]);
    tick(&mut app, vec![key(KeyCode::Delete)]);
    draw_rect(&mut app, (20, 20), (22, 22));
    let ids: Vec<u64> = app.scene().rectangles.iter().map(|r| r.id).collect();
    assert_eq!(ids, vec![2, 3]);
    assert_eq!(app.last_id(), 3);
}

#[test]
fn handlers_can_be_called_one_by_one() {
    let mut app = App::new();
    app.set_mouse_pos((5, 5));
    app.on_left_mouse_button_down(
        &MouseEvent { kind: MouseEventKind::Down(MouseButton::Left), column: 5, row: 5 },
        0,
    );
    app.set_mouse_pos((9, 9));
    app.on_update(0);
    app.on_mouse_left_up();
    assert_eq!(app.scene().rectangles[0].rect.size, (4, 4));
    app.on_key_press_not_edit_mode(&KeyCode::Char('t'));
    app.on_mouse_middle_down();
    assert!(app.is_active_action_text());
    app.on_key_press(&KeyEvent {
        code: KeyCode::Char('q'),
        modifiers: KeyModifiers::none(),
        pressed: true,
    });
    app.end_text_mode();
    assert_eq!(app.scene().texts[0].lines, vec!["q".to_string()]);
    assert_eq!(app.scene().texts[0].anchor_rect_id, Some(1));
    app.delete_under_point((9, 9));
    assert_eq!(app.scene().texts.len(), 0);
    assert_eq!(app.scene().rectangles.len(), 1);
    app.delete_under_point((9, 9));
    assert_eq!(app.scene().rectangles.len(), 0);
}
