use terge::app::App;
use terge::event_group::{
    Event, EventGroup, KeyCode, KeyEvent, KeyModifiers, MouseButton, MouseEvent, MouseEventKind,
};
use terge::gfx::{repeat_str, DrawCommand, Gfx};
use terge::line::Line;
use terge::objects::TextObject;
use terge::rect::Rect;
use terge::render::intent_to_str;
use terge::action::Intent;

fn at(x: u16, y: u16, text: &str) -> DrawCommand {
    DrawCommand::TextAt { x, y, text: text.to_string() }
}

fn colored(x: u16, y: u16, text: &str, color: u8) -> DrawCommand {
    DrawCommand::ColoredTextAt { x, y, text: text.to_string(), color }
}

fn plain(text: &str) -> DrawCommand {
    DrawCommand::Text { text: text.to_string() }
}

#[test]
fn surface_starts_empty() {
    let gfx = Gfx::new();
    assert_eq!((gfx.width, gfx.height), (0, 0));
    assert!(gfx.commands.is_empty());
}

#[test]
fn surface_hands_out_its_commands_once() {
    let mut gfx = Gfx::new();
    gfx.width = 80;
    gfx.height = 24;
    gfx.clear_screen();
    gfx.set_color(31);
    gfx.reset_color();
    assert_eq!(
        gfx.take_commands(),
        vec![DrawCommand::Clear, DrawCommand::SetColor(31), DrawCommand::ResetColor]
    );
    assert!(gfx.take_commands().is_empty());
    assert_eq!((gfx.width, gfx.height), (80, 24));
}

#[test]
fn text_commands() {
    let mut gfx = Gfx::new();
    gfx.draw_text("ab", 1, 2, 33);
    gfx.draw_text_uncoloured("cd", 3, 4);
    gfx.draw_text_to_current_pos("ef");
    gfx.draw_text_at_point("gh", (5, 6), 91);
    assert_eq!(
        gfx.commands,
        vec![colored(1, 2, "ab", 33), at(3, 4, "cd"), plain("ef"), colored(5, 6, "gh", 91)]
    );
}

#[test]
fn multiline_text_goes_down_row_by_row() {
    let mut gfx = Gfx::new();
    gfx.draw_multiline_text(&vec!["ab".to_string(), "".to_string(), "c".to_string()], 4, 9, 32);
    assert_eq!(
        gfx.commands,
        vec![colored(4, 9, "ab", 32), colored(4, 10, "", 32), colored(4, 11, "c", 32)]
    );
    let mut low = Gfx::new();
    low.draw_multiline_text(&vec!["a".to_string(), "b".to_string(), "c".to_string()], 0, 65534, 1);
    assert_eq!(
        low.commands,
        vec![colored(0, 65534, "a", 1), colored(0, 65535, "b", 1), colored(0, 65535, "c", 1)]
    );
}

#[test]
fn repeating_a_string() {
    assert_eq!(repeat_str("═", 3), "═══");
    assert_eq!(repeat_str("ab", 2), "abab");
    assert_eq!(repeat_str("ab", 0), "");
}

#[test]
fn rectangle_border_commands() {
    let mut gfx = Gfx::new();
    gfx.draw_rect_from_points((5, 3), (2, 1), 94);
    assert_eq!(
        gfx.commands,
        vec![
            DrawCommand::SetColor(94),
            at(2, 1, "║"),
            at(5, 1, "║"),
            at(2, 2, "║"),
            at(5, 2, "║"),
            at(2, 3, "║"),
            at(5, 3, "║"),
            at(3, 1, "══"),
            at(3, 3, "══"),
            at(2, 1, "╔"),
            at(5, 1, "╗"),
            at(2, 3, "╚"),
            at(5, 3, "╝"),
            DrawCommand::ResetColor,
        ]
    );
    let mut same = Gfx::new();
    same.draw_rect(&Rect::new_from_unordered_points((2, 1), (5, 3)), 94);
    assert_eq!(same.commands, gfx.commands);
}

#[test]
fn narrow_rectangle_has_no_level_edges() {
    let mut gfx = Gfx::new();
    gfx.draw_rect_from_points((2, 1), (3, 1), 0);
    assert_eq!(
        gfx.commands,
        vec![
            DrawCommand::SetColor(0),
            at(2, 1, "║"),
            at(3, 1, "║"),
            at(2, 1, "╔"),
            at(3, 1, "╗"),
            at(2, 1, "╚"),
            at(3, 1, "╝"),
            DrawCommand::ResetColor,
        ]
    );
}

#[test]
fn line_commands_mark_both_ends() {
    let mut gfx = Gfx::new();
    gfx.draw_line_from_points((0, 0), (2, 1), 92);
    assert_eq!(
        gfx.commands,
        vec![
            DrawCommand::SetColor(92),
            at(0, 0, "░"),
            at(1, 1, "░"),
            at(2, 1, "░"),
            at(0, 0, "X"),
            at(2, 1, "X"),
            DrawCommand::ResetColor,
        ]
    );
    let mut same = Gfx::new();
    same.draw_line(&Line { start: (0, 0), end: (2, 1) }, 92);
    assert_eq!(same.commands, gfx.commands);
    let mut point = Gfx::new();
    point.draw_line_from_points((4, 4), (4, 4), 1);
    assert_eq!(
        point.commands,
        vec![
            DrawCommand::SetColor(1),
            at(4, 4, "░"),
            at(4, 4, "X"),
            at(4, 4, "X"),
            DrawCommand::ResetColor
        ]
    );
}

#[test]
fn text_object_draws_each_line_where_it_starts() {
    let mut gfx = Gfx::new();
    let text = TextObject::new(1, (5, 7), vec!["hello".to_string(), "you".to_string()], None, 2);
    text.draw(&mut gfx);
    assert_eq!(gfx.commands, vec![colored(5, 7, "hello", 33), colored(5, 8, "you", 33)]);
    let mut gfx = Gfx::new();
    let text = TextObject::new(1, (20, 10), vec!["hello!".to_string(), "yo".to_string()], Some(4), 0);
    text.draw(&mut gfx);
    assert_eq!(gfx.commands, vec![colored(17, 9, "hello!", 39), colored(19, 10, "yo", 39)]);
}

#[test]
fn click_ring_runs_round_the_click() {
    let mut gfx = Gfx::new();
    gfx.draw_click_ring((10, 10), 60, 31);
    let cells: Vec<(u16, u16)> = gfx
        .commands
        .iter()
        .map(|c| match c {
            DrawCommand::ColoredTextAt { x, y, .. } => (*x, *y),
            _ => panic!("a ring is made of coloured cells"),
        })
        .collect();
    assert_eq!(
        cells,
        vec![
            (8, 8),
            (9, 8),
            (10, 8),
            (11, 8),
            (12, 8),
            (12, 9),
            (12, 10),
            (12, 11),
            (12, 12),
            (11, 12),
            (10, 12),
            (9, 12),
            (8, 12),
            (8, 11),
            (8, 10),
            (8, 9)
        ]
    );
    assert_eq!(gfx.commands[0], colored(8, 8, "░", 31));
    assert_eq!(gfx.commands[1], colored(9, 8, "▒", 31));
    assert_eq!(gfx.commands[4], colored(12, 8, " ", 31));
    assert_eq!(gfx.commands[15], colored(8, 9, "░", 31));
    let mut edge = Gfx::new();
    edge.draw_click_ring((1, 0), 0, 31);
    assert_eq!(edge.commands[0], colored(0, 0, " ", 31));
    assert_eq!(edge.commands[8], colored(3, 2, "▓", 31));
}

#[test]
fn tool_names() {
    assert_eq!(intent_to_str(Intent::Line), "Line");
    assert_eq!(intent_to_str(Intent::Rect), "Rect");
    assert_eq!(intent_to_str(Intent::Text), "Text");
    assert_eq!(intent_to_str(Intent::Pointer), "Pointer");
    assert_eq!(intent_to_str(Intent::Freehand), "Freehand");
}

fn status(width: u16, row: u16, intent: &str, active: &str, code: u8, name: &str) -> Vec<DrawCommand> {
    vec![
        DrawCommand::SetColor(100),
        at(0, row, &" ".repeat(width as usize)),
        DrawCommand::ResetColor,
        at(2, row, " Intent: "),
        plain(intent),
        plain(" "),
        DrawCommand::SetColor(100),
        plain(" "),
        DrawCommand::ResetColor,
        plain(" Active: "),
        plain(active),
        plain(" "),
        DrawCommand::SetColor(100),
        plain(" "),
        DrawCommand::ResetColor,
        plain(" Color: "),
        DrawCommand::SetColor(code),
        plain(name),
        DrawCommand::ResetColor,
        plain(" "),
    ]
}

#[test]
fn empty_editor_draws_a_cleared_screen_and_the_status_line() {
    let app = App::new();
    let mut gfx = Gfx::new();
    gfx.width = 10;
    gfx.height = 5;
    app.draw(&mut gfx, 0);
    let mut expected = vec![DrawCommand::Clear];
    expected.extend(status(10, 4, "Rect", "-", 39, "Default color"));
    assert_eq!(gfx.commands, expected);
    let mut unsized_gfx = Gfx::new();
    app.draw(&mut unsized_gfx, 0);
    let mut expected = vec![DrawCommand::Clear];
    expected.extend(status(0, 0, "Rect", "-", 39, "Default color"));
    assert_eq!(unsized_gfx.commands, expected);
}

fn key(code: KeyCode) -> Event {
    Event::Key(KeyEvent { code, modifiers: KeyModifiers::none(), pressed: true })
}

fn mouse(kind: MouseEventKind, x: u16, y: u16) -> Event {
    Event::Mouse(MouseEvent { kind, column: x, row: y })
}

fn tick(app: &mut App, events: Vec<Event>) {
    assert!(app.update(&EventGroup { events }, 0));
}

#[test]
fn editor_draws_its_objects_and_the_operation_under_way() {
    let mut app = App::new();
    let mut gfx = Gfx::new();
    app.reset(&mut gfx);
    assert!(gfx.commands.is_empty());
    gfx.width = 40;
    gfx.height = 20;
    tick(&mut app, vec![key(KeyCode::Char('1'))]);
    tick(&mut app, vec![mouse(MouseEventKind::Down(MouseButton::Left), 2, 2)]);
    tick(&mut app, vec![mouse(MouseEventKind::Up(MouseButton::Left), 4, 3)]);
    tick(&mut app, vec![key(KeyCode::Char('2')), key(KeyCode::Char('l'))]);
    tick(&mut app, vec![mouse(MouseEventKind::Down(MouseButton::Left), 10, 10)]);
    tick(&mut app, vec![mouse(MouseEventKind::Moved, 11, 10)]);
    app.draw(&mut gfx, 0);

    let mut rect = Gfx::new();
    rect.draw_rect_from_points((2, 2), (4, 3), 31);
    let mut line = Gfx::new();
    line.draw_line_from_points((10, 10), (11, 10), 33);
    let mut expected = vec![DrawCommand::Clear];
    expected.extend(rect.take_commands());
    expected.extend(line.take_commands());
    expected.extend(status(40, 19, "Line", "line", 33, "Yellow"));
    assert_eq!(gfx.take_commands(), expected);

    tick(&mut app, vec![mouse(MouseEventKind::Up(MouseButton::Left), 11, 10)]);
    tick(&mut app, vec![mouse(MouseEventKind::Moved, 4, 3)]);
    app.draw(&mut gfx, 0);
    let mut rect = Gfx::new();
    rect.draw_rect_from_points((2, 2), (4, 3), 31);
    let mut line = Gfx::new();
    line.draw_line_from_points((10, 10), (11, 10), 33);
    let mut expected = vec![DrawCommand::Clear];
    expected.extend(rect.take_commands());
    expected.push(colored(4, 3, "+", 39));
    expected.extend(line.take_commands());
    expected.extend(status(40, 19, "Line", "-", 33, "Yellow"));
    assert_eq!(gfx.take_commands(), expected);
}

#[test]
fn editor_draws_the_text_that_is_edited_with_a_cursor() {
    let mut app = App::new();
    let mut gfx = Gfx::new();
    gfx.width = 40;
    gfx.height = 20;
    tick(&mut app, vec![key(KeyCode::Char('t'))]);
    tick(&mut app, vec![mouse(MouseEventKind::Down(MouseButton::Left), 3, 3)]);
    tick(&mut app, vec![key(KeyCode::Char('h')), key(KeyCode::Char('i'))]);
    app.draw(&mut gfx, 0);
    let mut expected = vec![DrawCommand::Clear, colored(3, 3, "hi", 39), plain("_")];
    expected.extend(status(40, 19, "Text", "text", 39, "Default color"));
    assert_eq!(gfx.take_commands(), expected);
    tick(&mut app, vec![key(KeyCode::Enter)]);
    tick(&mut app, vec![mouse(MouseEventKind::Moved, 3, 3)]);
    app.draw(&mut gfx, 0);
    let mut expected = vec![DrawCommand::Clear, colored(3, 3, "hi", 39), colored(3, 3, "#", 39)];
    expected.extend(status(40, 19, "Text", "-", 39, "Default color"));
    assert_eq!(gfx.take_commands(), expected);
}

#[test]
fn editor_draws_the_pointer_and_its_traces() {
    let mut app = App::new();
    let mut gfx = Gfx::new();
    gfx.width = 40;
    gfx.height = 20;
    tick(&mut app, vec![key(KeyCode::Char('p'))]);
    tick(&mut app, vec![mouse(MouseEventKind::Down(MouseButton::Left), 5, 5)]);
    app.draw(&mut gfx, 0);
    let mut ring = Gfx::new();
    ring.draw_click_ring((5, 5), 0, 39);
    let mut expected = vec![DrawCommand::Clear, colored(5, 5, "*", 39), colored(5, 5, "*", 39)];
    expected.extend(status(40, 19, "Pointer", "pointer", 39, "Default color"));
    expected.extend(ring.take_commands());
    assert_eq!(gfx.take_commands(), expected);
}

#[test]
fn editor_draws_strokes() {
    let mut app = App::new();
    let mut gfx = Gfx::new();
    gfx.width = 40;
    gfx.height = 20;
    tick(&mut app, vec![key(KeyCode::Char('f')), key(KeyCode::Char('4'))]);
    tick(&mut app, vec![mouse(MouseEventKind::Down(MouseButton::Left), 1, 1)]);
    tick(&mut app, vec![mouse(MouseEventKind::Moved, 3, 1)]);
    app.draw(&mut gfx, 0);
    let mut expected = vec![
        DrawCommand::Clear,
        colored(1, 1, "*", 91),
        colored(2, 1, "*", 91),
        colored(3, 1, "*", 91),
    ];
    expected.extend(status(40, 19, "Freehand", "freehand", 91, "Light red"));
    assert_eq!(gfx.take_commands(), expected);
    tick(&mut app, vec![mouse(MouseEventKind::Up(MouseButton::Left), 3, 1)]);
    tick(&mut app, vec![key(KeyCode::Char('0'))]);
    app.draw(&mut gfx, 0);
    let mut expected = vec![
        DrawCommand::Clear,
        colored(1, 1, "*", 91),
        colored(2, 1, "*", 91),
        colored(3, 1, "*", 91),
    ];
    expected.extend(status(40, 19, "Freehand", "-", 39, "Default color"));
    assert_eq!(gfx.take_commands(), expected);
}
