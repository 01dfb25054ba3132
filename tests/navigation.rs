use hecto::editor::{navigate, Editor, Event, KeyCode, KeyEvent, KeyEventKind, KeyModifiers, RenderMode};
use hecto::terminal::{Position, Size};

fn size(width: usize, height: usize) -> Size {
    Size { height, width }
}

fn pos(x: usize, y: usize) -> Position {
    Position { x, y }
}

fn no_mods() -> KeyModifiers {
    KeyModifiers { shift: false, control: false, alt: false, super_key: false, hyper: false, meta: false }
}

fn press(code: KeyCode) -> Event {
    Event::Key(KeyEvent { code, modifiers: no_mods(), kind: KeyEventKind::Press })
}

fn ctrl_q() -> Event {
    let mut modifiers = no_mods();
    modifiers.control = true;
    Event::Key(KeyEvent { code: KeyCode::Char('q'), modifiers, kind: KeyEventKind::Press })
}

#[test]
fn left_then_right_returns_inside_row() {
    let s = size(80, 24);
    for x in 2..80 {
        let p = pos(x, 5);
        assert_eq!(navigate(navigate(p, KeyCode::Left, s), KeyCode::Right, s), p);
    }
}

#[test]
fn right_then_left_returns_inside_row() {
    let s = size(80, 24);
    for x in 1..79 {
        let p = pos(x, 5);
        assert_eq!(navigate(navigate(p, KeyCode::Right, s), KeyCode::Left, s), p);
    }
}

#[test]
fn left_at_column_zero_wraps_to_previous_row_end() {
    let s = size(80, 24);
    assert_eq!(navigate(pos(0, 5), KeyCode::Left, s), pos(80, 4));
    assert_eq!(navigate(pos(80, 4), KeyCode::Right, s), pos(0, 5));
}

#[test]
fn left_at_column_one_wraps() {
    let s = size(80, 24);
    assert_eq!(navigate(pos(1, 5), KeyCode::Left, s), pos(80, 4));
}

#[test]
fn left_at_top_left_stays() {
    let s = size(80, 24);
    assert_eq!(navigate(pos(0, 0), KeyCode::Left, s), pos(0, 0));
    assert_eq!(navigate(pos(1, 0), KeyCode::Left, s), pos(1, 0));
    assert_eq!(navigate(pos(2, 0), KeyCode::Left, s), pos(1, 0));
}

#[test]
fn right_at_last_column_wraps_to_next_row() {
    let s = size(80, 24);
    assert_eq!(navigate(pos(79, 3), KeyCode::Right, s), pos(0, 4));
}

#[test]
fn home_then_end_and_back() {
    let s = size(80, 24);
    let p = pos(17, 9);
    assert_eq!(navigate(navigate(p, KeyCode::Home, s), KeyCode::End, s), pos(80, 9));
    assert_eq!(navigate(navigate(p, KeyCode::End, s), KeyCode::Home, s), pos(0, 9));
}

#[test]
fn paging_ignores_previous_row() {
    let s = size(80, 24);
    for y in [0, 1, 12, 23, 40] {
        assert_eq!(navigate(pos(3, y), KeyCode::PageUp, s), pos(3, 0));
        assert_eq!(navigate(pos(3, y), KeyCode::PageDown, s), pos(3, 24));
    }
}

#[test]
fn up_saturates_at_zero() {
    let s = size(80, 24);
    assert_eq!(navigate(pos(4, 0), KeyCode::Up, s), pos(4, 0));
    assert_eq!(navigate(pos(4, 7), KeyCode::Up, s), pos(4, 6));
}

#[test]
fn down_stops_at_last_row() {
    let s = size(80, 24);
    assert_eq!(navigate(pos(4, 22), KeyCode::Down, s), pos(4, 23));
    let mut p = pos(4, 23);
    for _ in 0..5 {
        p = navigate(p, KeyCode::Down, s);
        assert_eq!(p, pos(4, 23));
    }
}

#[test]
fn down_past_shrunk_screen_returns_to_last_row() {
    assert_eq!(navigate(pos(7, 30), KeyCode::Down, size(80, 12)), pos(7, 11));
    assert_eq!(navigate(pos(7, 12), KeyCode::Down, size(80, 12)), pos(7, 11));
    assert_eq!(navigate(pos(7, 3), KeyCode::Down, size(80, 0)), pos(7, 3));
}

#[test]
fn other_keys_do_not_move() {
    let s = size(80, 24);
    assert_eq!(navigate(pos(4, 7), KeyCode::Char('a'), s), pos(4, 7));
    assert_eq!(navigate(pos(4, 7), KeyCode::Other, s), pos(4, 7));
}

#[test]
fn resize_between_frames_uses_new_height() {
    let mut editor = Editor::default();
    editor.evaluate_event(&press(KeyCode::PageDown), size(80, 24));
    assert_eq!(editor.cursor_position, pos(0, 24));
    editor.evaluate_event(&press(KeyCode::Down), size(80, 10));
    assert_eq!(editor.cursor_position, pos(0, 9));
    editor.evaluate_event(&press(KeyCode::PageDown), size(80, 10));
    assert_eq!(editor.cursor_position, pos(0, 10));
    editor.evaluate_event(&press(KeyCode::Down), size(80, 10));
    assert_eq!(editor.cursor_position, pos(0, 9));
    editor.evaluate_event(&press(KeyCode::PageDown), size(80, 10));
    editor.evaluate_event(&press(KeyCode::End), size(40, 10));
    assert_eq!(editor.cursor_position, pos(40, 10));
}

#[test]
fn fresh_editor_welcomes_at_origin() {
    let editor = Editor::default();
    assert_eq!(editor.mode, RenderMode::Welcome);
    assert_eq!(editor.cursor_position, pos(0, 0));
    assert!(!editor.should_quit());
}

#[test]
fn any_event_ends_welcome() {
    let mut editor = Editor::default();
    editor.evaluate_event(&press(KeyCode::Char('x')), size(80, 24));
    assert_eq!(editor.mode, RenderMode::Content);
    assert_eq!(editor.cursor_position, pos(0, 0));
    let mut other = Editor::default();
    other.evaluate_event(&Event::Other, size(80, 24));
    assert_eq!(other.mode, RenderMode::Content);
}

#[test]
fn ctrl_q_quits_and_farewell_is_kept() {
    let mut editor = Editor::default();
    editor.evaluate_event(&press(KeyCode::Right), size(80, 24));
    editor.evaluate_event(&ctrl_q(), size(80, 24));
    assert_eq!(editor.mode, RenderMode::Farewell);
    assert!(editor.should_quit());
    assert_eq!(editor.cursor_position, pos(1, 0));
    editor.evaluate_event(&press(KeyCode::Right), size(80, 24));
    assert_eq!(editor.mode, RenderMode::Farewell);
    assert_eq!(editor.cursor_position, pos(1, 0));
}

#[test]
fn q_without_control_alone_does_not_quit() {
    let mut editor = Editor::default();
    editor.evaluate_event(&press(KeyCode::Char('q')), size(80, 24));
    assert_eq!(editor.mode, RenderMode::Content);
    let mut modifiers = no_mods();
    modifiers.control = true;
    modifiers.shift = true;
    let ctrl_shift_q = Event::Key(KeyEvent { code: KeyCode::Char('q'), modifiers, kind: KeyEventKind::Press });
    assert!(!ctrl_shift_q.is_quit());
    editor.evaluate_event(&ctrl_shift_q, size(80, 24));
    assert_eq!(editor.mode, RenderMode::Content);
}

#[test]
fn released_keys_do_not_move() {
    let mut editor = Editor::default();
    let release = Event::Key(KeyEvent { code: KeyCode::Right, modifiers: no_mods(), kind: KeyEventKind::Release });
    editor.evaluate_event(&release, size(80, 24));
    assert_eq!(editor.cursor_position, pos(0, 0));
    assert_eq!(editor.mode, RenderMode::Content);
}

#[test]
fn mode_transitions() {
    assert_eq!(RenderMode::Welcome.after_event(&Event::Other), RenderMode::Content);
    assert_eq!(RenderMode::Content.after_event(&ctrl_q()), RenderMode::Farewell);
    assert_eq!(RenderMode::Welcome.after_event(&ctrl_q()), RenderMode::Farewell);
    assert_eq!(RenderMode::Farewell.after_event(&Event::Other), RenderMode::Farewell);
}
