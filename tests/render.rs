use hecto::buffer::Buffer;
use hecto::editor::{Editor, Event, KeyCode, KeyEvent, KeyEventKind, KeyModifiers, RenderMode};
use hecto::terminal::{DrawOp, Position, Size, Terminal};
use hecto::view::{draw_empty_row, draw_welcome_message};

fn no_mods() -> KeyModifiers {
    KeyModifiers { shift: false, control: false, alt: false, super_key: false, hyper: false, meta: false }
}

fn press(code: KeyCode) -> Event {
    Event::Key(KeyEvent { code, modifiers: no_mods(), kind: KeyEventKind::Press })
}

fn print(text: &str) -> DrawOp {
    DrawOp::Print(text.to_string())
}

fn printed(op: &DrawOp) -> &str {
    match op {
        DrawOp::Print(t) => t.as_str(),
        _ => panic!("not a print: {:?}", op),
    }
}

#[test]
fn banner_is_centred() {
    let banner = draw_welcome_message(80);
    let expected = format!("~{}hecto editor -- version 0.1.0", " ".repeat(24));
    assert_eq!(banner, expected);
}

#[test]
fn banner_truncated_to_width() {
    let banner = draw_welcome_message(10);
    assert_eq!(banner.chars().count(), 10);
    assert_eq!(banner, "~hecto edi");
    assert_eq!(draw_welcome_message(0), "");
    assert_eq!(draw_welcome_message(30), "~hecto editor -- version 0.1.0");
}

#[test]
fn empty_row_is_tilde() {
    assert_eq!(draw_empty_row(), "~");
}

#[test]
fn welcome_frame_shows_banner_at_third_row() {
    let editor = Editor::default();
    let size = Size { height: 24, width: 80 };
    let ops = editor.refresh_screen(size, &Buffer::default());
    assert_eq!(ops.len(), 2 + 3 * 24 - 1 + 3);
    assert_eq!(ops[0], DrawOp::MoveTo(Position { x: 0, y: 0 }));
    assert_eq!(ops[1], DrawOp::HideCursor);
    for r in 0..24 {
        assert_eq!(ops[2 + 3 * r], DrawOp::ClearLine);
        if r == 8 {
            assert_eq!(printed(&ops[3 + 3 * r]), draw_welcome_message(80));
        } else {
            assert_eq!(ops[3 + 3 * r], print("~"));
        }
        if r < 23 {
            assert_eq!(ops[4 + 3 * r], print("\r\n"));
        }
    }
    let n = ops.len();
    assert_eq!(ops[n - 3], DrawOp::MoveTo(Position { x: 0, y: 0 }));
    assert_eq!(ops[n - 2], DrawOp::ShowCursor);
    assert_eq!(ops[n - 1], DrawOp::Flush);
}

#[test]
fn banner_gone_after_one_key() {
    let mut editor = Editor::default();
    let size = Size { height: 24, width: 80 };
    editor.evaluate_event(&press(KeyCode::Char('z')), size);
    let ops = editor.refresh_screen(size, &Buffer::default());
    for r in 0..24 {
        assert_eq!(ops[3 + 3 * r], print("~"));
    }
}

#[test]
fn content_rows_show_buffer_lines() {
    let mut editor = Editor::default();
    editor.mode = RenderMode::Content;
    editor.cursor_position = Position { x: 2, y: 1 };
    let buffer = Buffer { lines: vec!["first".to_string(), "second".to_string()] };
    assert!(!buffer.is_empty());
    let size = Size { height: 3, width: 20 };
    let ops = editor.refresh_screen(size, &buffer);
    let expected = vec![
        DrawOp::MoveTo(Position { x: 0, y: 0 }),
        DrawOp::HideCursor,
        DrawOp::ClearLine,
        print("first"),
        print("\r\n"),
        DrawOp::ClearLine,
        print("second"),
        print("\r\n"),
        DrawOp::ClearLine,
        print("~"),
        DrawOp::MoveTo(Position { x: 2, y: 1 }),
        DrawOp::ShowCursor,
        DrawOp::Flush,
    ];
    assert_eq!(ops, expected);
}

#[test]
fn welcome_banner_overrides_content_line() {
    let editor = Editor::default();
    let buffer = Buffer { lines: vec!["a".to_string(), "b".to_string(), "c".to_string()] };
    let size = Size { height: 3, width: 40 };
    let ops = editor.refresh_screen(size, &buffer);
    assert_eq!(ops[3], print("a"));
    assert_eq!(printed(&ops[6]), draw_welcome_message(40));
    assert_eq!(ops[9], print("c"));
}

#[test]
fn zero_height_frame_only_places_cursor() {
    let editor = Editor::default();
    let ops = editor.refresh_screen(Size { height: 0, width: 80 }, &Buffer::default());
    assert_eq!(ops.len(), 5);
}

#[test]
fn quit_scenario_draws_one_farewell_frame() {
    let mut editor = Editor::default();
    let size = Size { height: 24, width: 80 };
    let mut modifiers = no_mods();
    modifiers.control = true;
    let quit = Event::Key(KeyEvent { code: KeyCode::Char('q'), modifiers, kind: KeyEventKind::Press });
    editor.evaluate_event(&quit, size);
    assert!(editor.should_quit());
    let ops = editor.refresh_screen(size, &Buffer::default());
    assert_eq!(
        ops,
        vec![
            DrawOp::ClearScreen,
            DrawOp::MoveTo(Position { x: 0, y: 0 }),
            print("Goodbye \r\n"),
            DrawOp::Flush,
        ]
    );
    let mut terminal = Terminal::initialize();
    let _ = terminal.execute();
    let batches = terminal.queue_frame(&ops);
    assert_eq!(batches, vec!["\x1b[2J\x1b[1;1HGoodbye \r\n".to_string()]);
    assert_eq!(terminal.execute(), "");
}

#[test]
fn buffer_emptiness() {
    assert!(Buffer::default().is_empty());
    assert!(!Buffer { lines: vec![String::new()] }.is_empty());
}
