//! The screen gateway: drawing operations are queued as ANSI text and handed
//! out as one batch per flush.
use vstd::prelude::*;
use vstd::string::*;

verus! {

/// A cursor location in screen coordinates.
#[derive(Clone, Copy, PartialEq, Eq, Structural, Debug)]
pub struct Position {
    pub x: usize,
    pub y: usize,
}

/// Terminal dimensions in columns and rows.
#[derive(Clone, Copy, PartialEq, Eq, Structural, Debug)]
pub struct Size {
    pub height: usize,
    pub width: usize,
}

/// Which part of the screen a clear operation wipes.
#[derive(Clone, Copy, PartialEq, Eq, Structural, Debug)]
pub enum ClearKind {
    All,
    CurrentLine,
}

/// The escape character that starts every control sequence.
pub const ESC: char = '\u{1b}';

/// The decimal digit for `d < 10`.
pub open spec fn digit_char(d: nat) -> char {
    seq!['0', '1', '2', '3', '4', '5', '6', '7', '8', '9'][d as int]
}

/// The decimal notation of `n`, without sign or leading zeros.
pub open spec fn decimal(n: nat) -> Seq<char>
    decreases n,
{
    if n < 10 {
        seq![digit_char(n)]
    } else {
        decimal(n / 10).push(digit_char(n % 10))
    }
}

/// The control sequence that clears the given part of the screen.
pub open spec fn clear_ansi(kind: ClearKind) -> Seq<char> {
    match kind {
        ClearKind::All => seq![ESC, '[', '2', 'J'],
        ClearKind::CurrentLine => seq![ESC, '[', '2', 'K'],
    }
}

/// The control sequence that moves the cursor to column `x`, row `y`
/// (both zero-based; the sequence itself counts from one).
pub open spec fn move_to_ansi(x: u16, y: u16) -> Seq<char> {
    seq![ESC, '['] + decimal((y + 1) as nat) + seq![';'] + decimal((x + 1) as nat) + seq!['H']
}

/// The control sequence that hides the cursor.
pub open spec fn hide_ansi() -> Seq<char> {
    seq![ESC, '[', '?', '2', '5', 'l']
}

/// The control sequence that shows the cursor.
pub open spec fn show_ansi() -> Seq<char> {
    seq![ESC, '[', '?', '2', '5', 'h']
}

/// Relies on crossterm's `Clear::write_ansi`: `CSI 2J` for the whole screen,
/// `CSI 2K` for the current line.
#[verifier::external_body]
fn write_clear(kind: ClearKind) -> (r: String)
    ensures
        r@ == clear_ansi(kind),
{
    let clear_type = match kind {
        ClearKind::All => crossterm::terminal::ClearType::All,
        ClearKind::CurrentLine => crossterm::terminal::ClearType::CurrentLine,
    };
    let mut out = String::new();
    let _ = crossterm::Command::write_ansi(&crossterm::terminal::Clear(clear_type), &mut out);
    out
}

/// Relies on crossterm's `MoveTo::write_ansi`: `CSI {y+1};{x+1}H`, with both
/// numbers in decimal. It adds one to each coordinate in `u16`, so neither may
/// be `u16::MAX`.
#[verifier::external_body]
fn write_move_to(x: u16, y: u16) -> (r: String)
    requires
        x < u16::MAX,
        y < u16::MAX,
    ensures
        r@ == move_to_ansi(x, y),
{
    let mut out = String::new();
    let _ = crossterm::Command::write_ansi(&crossterm::cursor::MoveTo(x, y), &mut out);
    out
}

/// Relies on crossterm's `Hide::write_ansi`: `CSI ?25l`.
#[verifier::external_body]
fn write_hide() -> (r: String)
    ensures
        r@ == hide_ansi(),
{
    let mut out = String::new();
    let _ = crossterm::Command::write_ansi(&crossterm::cursor::Hide, &mut out);
    out
}

/// Relies on crossterm's `Show::write_ansi`: `CSI ?25h`.
#[verifier::external_body]
fn write_show() -> (r: String)
    ensures
        r@ == show_ansi(),
{
    let mut out = String::new();
    let _ = crossterm::Command::write_ansi(&crossterm::cursor::Show, &mut out);
    out
}

/// Relies on crossterm's `Print::write_ansi`: the text is written as it is.
#[verifier::external_body]
fn write_print(text: &str) -> (r: String)
    ensures
        r@ == text@,
{
    let mut out = String::new();
    let _ = crossterm::Command::write_ansi(&crossterm::style::Print(text), &mut out);
    out
}

/// One drawing instruction of the gateway's closed set.
#[derive(Debug)]
pub enum DrawOp {
    MoveTo(Position),
    ClearLine,
    ClearScreen,
    Print(String),
    HideCursor,
    ShowCursor,
    Flush,
}

/// The mathematical value of a [`DrawOp`]: printed text is a sequence of
/// characters.
pub enum DrawOpModel {
    MoveTo(Position),
    ClearLine,
    ClearScreen,
    Print(Seq<char>),
    HideCursor,
    ShowCursor,
    Flush,
}

impl View for DrawOp {
    type V = DrawOpModel;

    open spec fn view(&self) -> DrawOpModel {
        match self {
            DrawOp::MoveTo(p) => DrawOpModel::MoveTo(*p),
            DrawOp::ClearLine => DrawOpModel::ClearLine,
            DrawOp::ClearScreen => DrawOpModel::ClearScreen,
            DrawOp::Print(t) => DrawOpModel::Print(t@),
            DrawOp::HideCursor => DrawOpModel::HideCursor,
            DrawOp::ShowCursor => DrawOpModel::ShowCursor,
            DrawOp::Flush => DrawOpModel::Flush,
        }
    }
}

impl PartialEq for DrawOp {
    fn eq(&self, other: &DrawOp) -> (r: bool) {
        match self {
            DrawOp::MoveTo(a) => match other {
                DrawOp::MoveTo(b) => a.x == b.x && a.y == b.y,
                _ => false,
            },
            DrawOp::Print(a) => match other {
                DrawOp::Print(b) => a.eq(b),
                _ => false,
            },
            DrawOp::ClearLine => matches!(other, DrawOp::ClearLine),
            DrawOp::ClearScreen => matches!(other, DrawOp::ClearScreen),
            DrawOp::HideCursor => matches!(other, DrawOp::HideCursor),
            DrawOp::ShowCursor => matches!(other, DrawOp::ShowCursor),
            DrawOp::Flush => matches!(other, DrawOp::Flush),
        }
    }
}

impl vstd::std_specs::cmp::PartialEqSpecImpl for DrawOp {
    open spec fn obeys_eq_spec() -> bool {
        true
    }

    open spec fn eq_spec(&self, other: &DrawOp) -> bool {
        self@ == other@
    }
}

/// The views of a sequence of operations.
pub open spec fn ops_view(ops: Seq<DrawOp>) -> Seq<DrawOpModel> {
    ops.map_values(|o: DrawOp| o@)
}

/// The views of a sequence of strings.
pub open spec fn texts_view(texts: Seq<String>) -> Seq<Seq<char>> {
    texts.map_values(|t: String| t@)
}

/// The largest coordinate that a cursor move can address.
pub const MAX_COORD: u16 = 65534;

/// A screen coordinate as the terminal protocol carries it: values past
/// [`MAX_COORD`] stop there.
pub open spec fn coord(v: usize) -> u16 {
    if v < MAX_COORD as usize {
        v as u16
    } else {
        MAX_COORD
    }
}

/// The ANSI text that queueing one operation appends; a flush appends none.
pub open spec fn op_ansi(op: DrawOpModel) -> Seq<char> {
    match op {
        DrawOpModel::MoveTo(p) => move_to_ansi(coord(p.x), coord(p.y)),
        DrawOpModel::ClearLine => clear_ansi(ClearKind::CurrentLine),
        DrawOpModel::ClearScreen => clear_ansi(ClearKind::All),
        DrawOpModel::Print(t) => t,
        DrawOpModel::HideCursor => hide_ansi(),
        DrawOpModel::ShowCursor => show_ansi(),
        DrawOpModel::Flush => Seq::empty(),
    }
}

/// Applying `ops` to a gateway whose queue holds `pending`: the queue left
/// at the end, and the batches that each flush handed out, in order.
pub open spec fn run_ops(pending: Seq<char>, ops: Seq<DrawOpModel>) -> (Seq<char>, Seq<Seq<char>>)
    decreases ops.len(),
{
    if ops.len() == 0 {
        (pending, Seq::empty())
    } else {
        let prev = run_ops(pending, ops.drop_last());
        if ops.last() is Flush {
            (Seq::empty(), prev.1.push(prev.0))
        } else {
            (prev.0 + op_ansi(ops.last()), prev.1)
        }
    }
}

/// The screen gateway. Drawing operations are queued as text; nothing
/// reaches the screen until the batch is taken at a flush and written as
/// one piece.
pub struct Terminal {
    pending: String,
}

impl View for Terminal {
    type V = Seq<char>;

    /// The queued text that has not been flushed yet.
    closed spec fn view(&self) -> Seq<char> {
        self.pending@
    }
}

impl Terminal {
    /// A gateway whose first batch clears the screen and moves the cursor to
    /// the origin. The caller enters raw mode before writing it.
    pub fn initialize() -> (t: Terminal)
        ensures
            t@ == clear_ansi(ClearKind::All) + move_to_ansi(0, 0),
    {
        let mut t = Terminal { pending: String::new() };
        t.clear_screen();
        t.move_cusor_to(Position { x: 0, y: 0 });
        t
    }

    fn queue_text(&mut self, text: String)
        ensures
            final(self)@ == old(self)@ + text@,
    {
        self.pending.append(text.as_str());
    }

    /// Queues a clear of the whole screen.
    pub fn clear_screen(&mut self)
        ensures
            final(self)@ == old(self)@ + clear_ansi(ClearKind::All),
    {
        self.queue_text(write_clear(ClearKind::All));
    }

    /// Queues a clear of the line under the cursor.
    pub fn clear_line(&mut self)
        ensures
            final(self)@ == old(self)@ + clear_ansi(ClearKind::CurrentLine),
    {
        self.queue_text(write_clear(ClearKind::CurrentLine));
    }

    /// Queues a cursor move; coordinates past [`MAX_COORD`] stop there.
    pub fn move_cusor_to(&mut self, position: Position)
        ensures
            final(self)@ == old(self)@ + move_to_ansi(coord(position.x), coord(position.y)),
    {
        let x: u16 = if position.x < MAX_COORD as usize {
            position.x as u16
        } else {
            MAX_COORD
        };
        let y: u16 = if position.y < MAX_COORD as usize {
            position.y as u16
        } else {
            MAX_COORD
        };
        self.queue_text(write_move_to(x, y));
    }

    /// Queues hiding the cursor.
    pub fn hide_cursor(&mut self)
        ensures
            final(self)@ == old(self)@ + hide_ansi(),
    {
        self.queue_text(write_hide());
    }

    /// Queues showing the cursor.
    pub fn show_cursor(&mut self)
        ensures
            final(self)@ == old(self)@ + show_ansi(),
    {
        self.queue_text(write_show());
    }

    /// Queues text to be printed at the cursor.
    pub fn print(&mut self, text: &str)
        ensures
            final(self)@ == old(self)@ + text@,
    {
        self.queue_text(write_print(text));
    }

    /// Takes the queued batch, leaving the queue empty. The caller writes the
    /// batch to the terminal and flushes it.
    pub fn execute(&mut self) -> (batch: String)
        ensures
            batch@ == old(self)@,
            final(self)@ == Seq::<char>::empty(),
    {
        let mut batch = String::new();
        core::mem::swap(&mut batch, &mut self.pending);
        batch
    }

    /// Queues one operation other than a flush.
    pub fn queue_command(&mut self, op: &DrawOp)
        ensures
            final(self)@ == old(self)@ + op_ansi(op@),
    {
        match op {
            DrawOp::MoveTo(p) => self.move_cusor_to(*p),
            DrawOp::ClearLine => self.clear_line(),
            DrawOp::ClearScreen => self.clear_screen(),
            DrawOp::Print(t) => self.print(t.as_str()),
            DrawOp::HideCursor => self.hide_cursor(),
            DrawOp::ShowCursor => self.show_cursor(),
            DrawOp::Flush => {
                assert(old(self)@ + op_ansi(op@) =~= old(self)@);
            },
        }
    }

    /// Applies a sequence of operations in order, returning the batch that
    /// each flush completed.
    pub fn queue_frame(&mut self, ops: &Vec<DrawOp>) -> (batches: Vec<String>)
        ensures
            (final(self)@, texts_view(batches@)) == run_ops(old(self)@, ops_view(ops@)),
    {
        let ghost start = self@;
        let mut batches: Vec<String> = Vec::new();
        let mut i: usize = 0;
        while i < ops.len()
            invariant
                i <= ops@.len(),
                (self@, texts_view(batches@)) == run_ops(start, ops_view(ops@).take(i as int)),
            decreases ops@.len() - i,
        {
            let op = &ops[i];
            proof {
                assert(ops_view(ops@).take(i + 1).drop_last() =~= ops_view(ops@).take(i as int));
            }
            match op {
                DrawOp::Flush => {
                    let batch = self.execute();
                    batches.push(batch);
                    assert(texts_view(batches@) =~= run_ops(start, ops_view(ops@).take(i as int)).1.push(batch@));
                },
                _ => {
                    self.queue_command(op);
                },
            }
            i = i + 1;
        }
        assert(ops_view(ops@).take(ops@.len() as int) =~= ops_view(ops@));
        batches
    }
}

} // verus!
