//! Input events, the render-mode state machine and cursor navigation.
use vstd::prelude::*;
use crate::terminal::{Position, Size};

verus! {

/// The key that an event names.
#[derive(Clone, Copy, PartialEq, Eq, Structural, Debug)]
pub enum KeyCode {
    Left,
    Right,
    Up,
    Down,
    Home,
    End,
    PageUp,
    PageDown,
    Char(char),
    Other,
}

/// The modifier keys held with a key.
#[derive(Clone, Copy, PartialEq, Eq, Structural, Debug)]
pub struct KeyModifiers {
    pub shift: bool,
    pub control: bool,
    pub alt: bool,
    pub super_key: bool,
    pub hyper: bool,
    pub meta: bool,
}

/// Whether a key went down, repeated or went up.
#[derive(Clone, Copy, PartialEq, Eq, Structural, Debug)]
pub enum KeyEventKind {
    Press,
    Repeat,
    Release,
}

/// One keyboard event.
#[derive(Clone, Copy, PartialEq, Eq, Structural, Debug)]
pub struct KeyEvent {
    pub code: KeyCode,
    pub modifiers: KeyModifiers,
    pub kind: KeyEventKind,
}

/// One input event: a key, or anything else the terminal reports.
#[derive(Clone, Copy, PartialEq, Eq, Structural, Debug)]
pub enum Event {
    Key(KeyEvent),
    Other,
}

/// What a frame shows: the welcome banner over the content, the content
/// alone, or the farewell line.
#[derive(Clone, Copy, PartialEq, Eq, Structural, Debug)]
pub enum RenderMode {
    Welcome,
    Content,
    Farewell,
}

/// Control held with no other modifier.
pub open spec fn control_only(m: KeyModifiers) -> bool {
    m.control && !m.shift && !m.alt && !m.super_key && !m.hyper && !m.meta
}

/// The quit combination: Control-q pressed.
pub open spec fn is_quit(event: Event) -> bool {
    match event {
        Event::Key(k) => k.kind == KeyEventKind::Press && k.code == KeyCode::Char('q')
            && control_only(k.modifiers),
        Event::Other => false,
    }
}

/// The mode after an event: quitting leads to the farewell, which is kept;
/// any other event ends the welcome.
pub open spec fn next_mode(mode: RenderMode, event: Event) -> RenderMode {
    if mode == RenderMode::Farewell || is_quit(event) {
        RenderMode::Farewell
    } else {
        RenderMode::Content
    }
}

/// Where a navigation key moves the cursor on a screen of the given size.
/// Left from the first two columns wraps to the end of the row above, but
/// stays put on the top row. Down never leaves the screen: a row already
/// past a screen that shrank comes back to the last row.
pub open spec fn moved_to(p: Position, code: KeyCode, size: Size) -> Position {
    match code {
        KeyCode::Left => if p.x >= 2 {
            Position { x: (p.x - 1) as usize, y: p.y }
        } else if p.y > 0 {
            Position { x: size.width, y: (p.y - 1) as usize }
        } else {
            p
        },
        KeyCode::Right => if p.x + 1 < size.width {
            Position { x: (p.x + 1) as usize, y: p.y }
        } else {
            Position { x: 0, y: if p.y < usize::MAX { (p.y + 1) as usize } else { p.y } }
        },
        KeyCode::Up => Position { x: p.x, y: if p.y > 0 { (p.y - 1) as usize } else { 0 } },
        KeyCode::Down => if p.y + 1 < size.height {
            Position { x: p.x, y: (p.y + 1) as usize }
        } else if p.y >= size.height && size.height > 0 {
            Position { x: p.x, y: (size.height - 1) as usize }
        } else {
            p
        },
        KeyCode::Home => Position { x: 0, y: p.y },
        KeyCode::End => Position { x: size.width, y: p.y },
        KeyCode::PageUp => Position { x: p.x, y: 0 },
        KeyCode::PageDown => Position { x: p.x, y: size.height },
        _ => p,
    }
}

/// The cursor after an event: a pressed key other than the quit combination
/// navigates; other events, and any event after the farewell, leave it.
pub open spec fn next_position(mode: RenderMode, p: Position, event: Event, size: Size) -> Position {
    match event {
        Event::Key(k) => if mode != RenderMode::Farewell && k.kind == KeyEventKind::Press
            && !is_quit(event) {
            moved_to(p, k.code, size)
        } else {
            p
        },
        Event::Other => p,
    }
}

impl Event {
    /// Whether this event is the quit combination.
    pub fn is_quit(&self) -> (r: bool)
        ensures
            r == is_quit(*self),
    {
        match self {
            Event::Key(k) => {
                let m = k.modifiers;
                k.kind == KeyEventKind::Press && k.code == KeyCode::Char('q') && m.control
                    && !m.shift && !m.alt && !m.super_key && !m.hyper && !m.meta
            },
            Event::Other => false,
        }
    }
}

impl RenderMode {
    /// The mode after one event.
    pub fn after_event(self, event: &Event) -> (r: RenderMode)
        ensures
            r == next_mode(self, *event),
    {
        if self == RenderMode::Farewell || event.is_quit() {
            RenderMode::Farewell
        } else {
            RenderMode::Content
        }
    }
}

/// Moves a position by one navigation key against a freshly queried size.
/// Arithmetic saturates at zero and at the integer bound, never wrapping.
pub fn navigate(p: Position, code: KeyCode, size: Size) -> (r: Position)
    ensures
        r == moved_to(p, code, size),
{
    match code {
        KeyCode::Left => {
            if p.x.saturating_sub(1) > 0 {
                Position { x: p.x - 1, y: p.y }
            } else if p.y > 0 {
                Position { x: size.width, y: p.y - 1 }
            } else {
                p
            }
        },
        KeyCode::Right => {
            if p.x.saturating_add(1) < size.width {
                Position { x: p.x + 1, y: p.y }
            } else {
                Position { x: 0, y: p.y.saturating_add(1) }
            }
        },
        KeyCode::Up => Position { x: p.x, y: p.y.saturating_sub(1) },
        KeyCode::Down => {
            if p.y.saturating_add(1) < size.height {
                Position { x: p.x, y: p.y + 1 }
            } else if p.y >= size.height && size.height > 0 {
                Position { x: p.x, y: size.height - 1 }
            } else {
                p
            }
        },
        KeyCode::Home => Position { x: 0, y: p.y },
        KeyCode::End => Position { x: size.width, y: p.y },
        KeyCode::PageUp => Position { x: p.x, y: 0 },
        KeyCode::PageDown => Position { x: p.x, y: size.height },
        _ => p,
    }
}

/// The session state: the render mode and the logical cursor.
pub struct Editor {
    pub mode: RenderMode,
    pub cursor_position: Position,
}

impl Editor {
    /// A fresh session: welcome mode, cursor at the origin.
    pub fn default() -> (e: Editor)
        ensures
            e.mode == RenderMode::Welcome,
            e.cursor_position == (Position { x: 0, y: 0 }),
    {
        Editor { mode: RenderMode::Welcome, cursor_position: Position { x: 0, y: 0 } }
    }

    /// Whether the session has entered the farewell and its loop ends after
    /// the next frame.
    pub fn should_quit(&self) -> (r: bool)
        ensures
            r == (self.mode == RenderMode::Farewell),
    {
        self.mode == RenderMode::Farewell
    }

    /// Handles one input event against the terminal size queried for it.
    pub fn evaluate_event(&mut self, event: &Event, size: Size)
        ensures
            final(self).mode == next_mode(old(self).mode, *event),
            final(self).cursor_position == next_position(
                old(self).mode,
                old(self).cursor_position,
                *event,
                size,
            ),
    {
        if self.mode != RenderMode::Farewell && !event.is_quit() {
            match event {
                Event::Key(k) => {
                    if k.kind == KeyEventKind::Press {
                        self.cursor_position = navigate(self.cursor_position, k.code, size);
                    }
                },
                Event::Other => {},
            }
        }
        self.mode = self.mode.after_event(event);
    }
}

/// A pressed key with no modifier.
pub open spec fn key_press(code: KeyCode) -> Event {
    Event::Key(
        KeyEvent {
            code,
            modifiers: KeyModifiers {
                shift: false,
                control: false,
                alt: false,
                super_key: false,
                hyper: false,
                meta: false,
            },
            kind: KeyEventKind::Press,
        },
    )
}

/// While the session runs, a pressed key other than the quit combination
/// moves the cursor by the navigation table, against the size given with it.
pub proof fn lemma_running_session_navigates(mode: RenderMode, p: Position, k: KeyEvent, s: Size)
    requires
        mode != RenderMode::Farewell,
        k.kind == KeyEventKind::Press,
        !is_quit(Event::Key(k)),
    ensures
        next_position(mode, p, Event::Key(k), s) == moved_to(p, k.code, s),
        next_mode(mode, Event::Key(k)) == RenderMode::Content,
{
}

/// Left then Right returns to the starting position inside the screen,
/// except from column one, and from column zero of the top row, where Left
/// keeps the cursor. At column zero below the top row, Left wraps to the end
/// of the row above and Right comes back. Right then Left returns to the
/// start from any column but the first and the last; Right at the last
/// column wraps to the start of the next row. All of this holds for the
/// cursor of a running session, which takes each key with its own size.
pub proof fn lemma_left_right_round_trip(mode: RenderMode, p: Position, s: Size)
    requires
        mode != RenderMode::Farewell,
        p.x < s.width,
        p.y < s.height,
    ensures
        p.x >= 2 ==> moved_to(moved_to(p, KeyCode::Left, s), KeyCode::Right, s) == p,
        p.x == 0 && p.y > 0 ==> moved_to(p, KeyCode::Left, s) == (Position {
            x: s.width,
            y: (p.y - 1) as usize,
        }),
        p.x == 0 && p.y > 0 ==> moved_to(moved_to(p, KeyCode::Left, s), KeyCode::Right, s) == p,
        p.x == 0 && p.y == 0 ==> moved_to(p, KeyCode::Left, s) == p,
        1 <= p.x && p.x + 1 < s.width ==> moved_to(moved_to(p, KeyCode::Right, s), KeyCode::Left, s)
            == p,
        p.x + 1 == s.width ==> moved_to(p, KeyCode::Right, s) == (Position {
            x: 0,
            y: (p.y + 1) as usize,
        }),
        p.x >= 2 || (p.x == 0 && p.y > 0) ==> next_position(
            next_mode(mode, key_press(KeyCode::Left)),
            next_position(mode, p, key_press(KeyCode::Left), s),
            key_press(KeyCode::Right),
            s,
        ) == p,
        p.x == 0 && p.y == 0 ==> next_position(mode, p, key_press(KeyCode::Left), s) == p,
        1 <= p.x && p.x + 1 < s.width ==> next_position(
            next_mode(mode, key_press(KeyCode::Right)),
            next_position(mode, p, key_press(KeyCode::Right), s),
            key_press(KeyCode::Left),
            s,
        ) == p,
        p.x + 1 == s.width ==> next_position(mode, p, key_press(KeyCode::Right), s) == (Position {
            x: 0,
            y: (p.y + 1) as usize,
        }),
{
}

/// Home then End puts the cursor at the row's end; End then Home at its
/// start. The row is kept. Each key takes the size queried for it.
pub proof fn lemma_home_end(mode: RenderMode, p: Position, s1: Size, s2: Size)
    requires
        mode != RenderMode::Farewell,
    ensures
        moved_to(moved_to(p, KeyCode::Home, s1), KeyCode::End, s2) == (Position { x: s2.width, y: p.y }),
        moved_to(moved_to(p, KeyCode::End, s1), KeyCode::Home, s2) == (Position { x: 0, y: p.y }),
        next_position(
            next_mode(mode, key_press(KeyCode::Home)),
            next_position(mode, p, key_press(KeyCode::Home), s1),
            key_press(KeyCode::End),
            s2,
        ) == (Position { x: s2.width, y: p.y }),
        next_position(
            next_mode(mode, key_press(KeyCode::End)),
            next_position(mode, p, key_press(KeyCode::End), s1),
            key_press(KeyCode::Home),
            s2,
        ) == (Position { x: 0, y: p.y }),
{
}

/// PageUp goes to the top row and PageDown to the row at the height of the
/// size given with it, whatever the row before; the column is kept.
pub proof fn lemma_paging(mode: RenderMode, p: Position, s: Size)
    requires
        mode != RenderMode::Farewell,
    ensures
        moved_to(p, KeyCode::PageUp, s) == (Position { x: p.x, y: 0 }),
        moved_to(p, KeyCode::PageDown, s) == (Position { x: p.x, y: s.height }),
        next_position(mode, p, key_press(KeyCode::PageUp), s) == (Position { x: p.x, y: 0 }),
        next_position(mode, p, key_press(KeyCode::PageDown), s) == (Position { x: p.x, y: s.height }),
{
}

/// Down never leaves a screen that has rows: from a row on it, it moves one
/// row down or, on the last row, changes nothing, however often repeated;
/// from a row past a screen that shrank, it comes back to the last row of
/// the new size. The column is kept.
pub proof fn lemma_down_stays_on_screen(mode: RenderMode, p: Position, s: Size)
    requires
        mode != RenderMode::Farewell,
        s.height > 0,
    ensures
        moved_to(p, KeyCode::Down, s).y < s.height,
        moved_to(p, KeyCode::Down, s).x == p.x,
        p.y + 1 < s.height ==> moved_to(p, KeyCode::Down, s).y == p.y + 1,
        p.y + 1 == s.height ==> moved_to(p, KeyCode::Down, s) == p,
        p.y >= s.height ==> moved_to(p, KeyCode::Down, s).y == s.height - 1,
        next_position(mode, p, key_press(KeyCode::Down), s) == moved_to(p, KeyCode::Down, s),
{
}

/// Every event ends the welcome: after one event the mode is no longer
/// the welcome, whatever the event was.
pub proof fn lemma_welcome_ends(mode: RenderMode, event: Event)
    ensures
        next_mode(mode, event) != RenderMode::Welcome,
        mode == RenderMode::Farewell ==> next_mode(mode, event) == RenderMode::Farewell,
{
}

} // verus!
