//! The renderer: one frame of drawing operations for a screen size, a
//! render mode, a cursor and the buffer's lines.
use vstd::prelude::*;
use vstd::string::*;
use crate::buffer::Buffer;
use crate::editor::{Editor, Event, RenderMode, is_quit, next_mode};
use crate::terminal::{DrawOp, DrawOpModel, Position, Size, ops_view};

verus! {

/// The product name shown in the welcome banner.
pub const NAME: &'static str = "hecto";

/// The version shown in the welcome banner.
pub const VERSION: &'static str = "0.1.0";

/// The product and version line of the welcome banner.
pub open spec fn product_line() -> Seq<char> {
    NAME@ + " editor -- version "@ + VERSION@
}

/// The welcome banner for a screen `width` columns wide: a tilde, then the
/// product line centred by padding with spaces, cut to `width` characters.
pub open spec fn welcome_line(width: nat) -> Seq<char> {
    let msg = product_line();
    let padding: nat = if width > msg.len() { ((width - msg.len()) / 2) as nat } else { 0 };
    let spaces: nat = if padding > 0 { (padding - 1) as nat } else { 0 };
    let full = "~"@ + Seq::new(spaces, |i: int| ' ') + msg;
    if full.len() > width { full.take(width as int) } else { full }
}

/// What row `r` shows: the banner at one third of the height while
/// welcoming, else the buffer's line `r`, else the tilde of a row past the
/// content.
pub open spec fn row_text(mode: RenderMode, r: nat, size: Size, lines: Seq<Seq<char>>) -> Seq<char> {
    if mode == RenderMode::Welcome && r == size.height / 3 {
        welcome_line(size.width as nat)
    } else if r < lines.len() {
        lines[r as int]
    } else {
        "~"@
    }
}

/// The operations of row `r`: clear the line, print its text, and end it
/// unless it is the last row.
pub open spec fn row_ops(mode: RenderMode, r: nat, size: Size, lines: Seq<Seq<char>>) -> Seq<DrawOpModel> {
    seq![DrawOpModel::ClearLine, DrawOpModel::Print(row_text(mode, r, size, lines))] + if r + 1
        < size.height {
        seq![DrawOpModel::Print("\r\n"@)]
    } else {
        Seq::empty()
    }
}

/// The operations of the first `n` rows, top to bottom.
pub open spec fn rows_ops(mode: RenderMode, n: nat, size: Size, lines: Seq<Seq<char>>) -> Seq<DrawOpModel>
    decreases n,
{
    if n == 0 {
        Seq::empty()
    } else {
        rows_ops(mode, (n - 1) as nat, size, lines) + row_ops(mode, (n - 1) as nat, size, lines)
    }
}

/// The line printed when the session ends.
pub open spec fn farewell_text() -> Seq<char> {
    "Goodbye \r\n"@
}

/// One whole frame. The farewell clears the screen, homes the cursor, prints
/// the farewell line and flushes. Any other frame hides the cursor, draws
/// every row from the origin, places the cursor, shows it and flushes.
pub open spec fn frame_ops(mode: RenderMode, cursor: Position, size: Size, lines: Seq<Seq<char>>) -> Seq<DrawOpModel> {
    if mode == RenderMode::Farewell {
        seq![
            DrawOpModel::ClearScreen,
            DrawOpModel::MoveTo(Position { x: 0, y: 0 }),
            DrawOpModel::Print(farewell_text()),
            DrawOpModel::Flush,
        ]
    } else {
        seq![DrawOpModel::MoveTo(Position { x: 0, y: 0 }), DrawOpModel::HideCursor] + rows_ops(
            mode,
            size.height as nat,
            size,
            lines,
        ) + seq![DrawOpModel::MoveTo(cursor), DrawOpModel::ShowCursor, DrawOpModel::Flush]
    }
}

/// The welcome banner for a screen `width` columns wide.
pub fn draw_welcome_message(width: usize) -> (r: String)
    ensures
        r@ == welcome_line(width as nat),
{
    let message = String::from_str(NAME).concat(" editor -- version ").concat(VERSION);
    let len = message.as_str().unicode_len();
    let padding = width.saturating_sub(len) / 2;
    let spaces = padding.saturating_sub(1);
    let mut line = String::from_str("~");
    let mut i: usize = 0;
    while i < spaces
        invariant
            i <= spaces,
            line@ == "~"@ + Seq::new(i as nat, |k: int| ' '),
        decreases spaces - i,
    {
        proof {
            reveal_strlit(" ");
        }
        line.append(" ");
        i = i + 1;
        assert(line@ =~= "~"@ + Seq::new(i as nat, |k: int| ' '));
    }
    line.append(message.as_str());
    let ghost full = line@;
    assert(full =~= welcome_line(width as nat) || full.len() > width);
    if line.as_str().unicode_len() > width {
        let cut = String::from_str(line.as_str().substring_char(0, width));
        assert(cut@ =~= full.take(width as int));
        cut
    } else {
        line
    }
}

/// The tilde of a row past the end of the content.
pub fn draw_empty_row() -> (r: String)
    ensures
        r@ == "~"@,
{
    String::from_str("~")
}

/// The text of row `r`.
fn draw_row_text(mode: RenderMode, r: usize, size: Size, buffer: &Buffer) -> (t: String)
    ensures
        t@ == row_text(mode, r as nat, size, buffer@),
{
    if mode == RenderMode::Welcome && r == size.height / 3 {
        draw_welcome_message(size.width)
    } else if r < buffer.lines.len() {
        buffer.lines[r].clone()
    } else {
        draw_empty_row()
    }
}

/// Appends the operations of every row of the screen.
pub fn draw_rows(mode: RenderMode, size: Size, buffer: &Buffer, ops: &mut Vec<DrawOp>)
    ensures
        ops_view(final(ops)@) == ops_view(old(ops)@) + rows_ops(mode, size.height as nat, size, buffer@),
{
    let ghost start = ops_view(ops@);
    let mut r: usize = 0;
    while r < size.height
        invariant
            r <= size.height,
            ops_view(ops@) == start + rows_ops(mode, r as nat, size, buffer@),
        decreases size.height - r,
    {
        let ghost before = ops_view(ops@);
        ops.push(DrawOp::ClearLine);
        ops.push(DrawOp::Print(draw_row_text(mode, r, size, buffer)));
        if r + 1 < size.height {
            ops.push(DrawOp::Print(String::from_str("\r\n")));
        }
        assert(ops_view(ops@) =~= before + row_ops(mode, r as nat, size, buffer@));
        assert(rows_ops(mode, (r + 1) as nat, size, buffer@) == rows_ops(mode, r as nat, size, buffer@)
            + row_ops(mode, r as nat, size, buffer@));
        assert(ops_view(ops@) =~= start + rows_ops(mode, (r + 1) as nat, size, buffer@));
        r = r + 1;
    }
}

impl Editor {
    /// The frame for the current mode and cursor on a screen of the given
    /// size, showing the buffer's lines.
    pub fn refresh_screen(&self, size: Size, buffer: &Buffer) -> (ops: Vec<DrawOp>)
        ensures
            ops_view(ops@) == frame_ops(self.mode, self.cursor_position, size, buffer@),
    {
        let origin = Position { x: 0, y: 0 };
        let mut ops: Vec<DrawOp> = Vec::new();
        if self.mode == RenderMode::Farewell {
            ops.push(DrawOp::ClearScreen);
            ops.push(DrawOp::MoveTo(origin));
            ops.push(DrawOp::Print(String::from_str("Goodbye \r\n")));
            ops.push(DrawOp::Flush);
            assert(ops_view(ops@) =~= frame_ops(self.mode, self.cursor_position, size, buffer@));
        } else {
            ops.push(DrawOp::MoveTo(origin));
            ops.push(DrawOp::HideCursor);
            let ghost head = ops_view(ops@);
            assert(head =~= seq![DrawOpModel::MoveTo(origin), DrawOpModel::HideCursor]);
            draw_rows(self.mode, size, buffer, &mut ops);
            let ghost body = ops_view(ops@);
            ops.push(DrawOp::MoveTo(self.cursor_position));
            ops.push(DrawOp::ShowCursor);
            ops.push(DrawOp::Flush);
            assert(ops_view(ops@) =~= body + seq![
                DrawOpModel::MoveTo(self.cursor_position),
                DrawOpModel::ShowCursor,
                DrawOpModel::Flush,
            ]);
            assert(ops_view(ops@) =~= frame_ops(self.mode, self.cursor_position, size, buffer@));
        }
        ops
    }
}

/// What a row past the welcome shows: the buffer's line, else a tilde.
pub open spec fn content_text(r: nat, lines: Seq<Seq<char>>) -> Seq<char> {
    if r < lines.len() {
        lines[r as int]
    } else {
        "~"@
    }
}

/// The first `n` rows take three operations each, but for the last row of
/// the screen, which takes two; row `r` starts at `3 * r` with a line clear
/// followed by the print of its text.
pub proof fn lemma_rows_layout(mode: RenderMode, n: nat, size: Size, lines: Seq<Seq<char>>)
    requires
        n <= size.height,
    ensures
        rows_ops(mode, n, size, lines).len() == if n > 0 && n == size.height {
            3 * n as int - 1
        } else {
            3 * n as int
        },
        forall|r: int|
            0 <= r < n ==> #[trigger] rows_ops(mode, n, size, lines)[3 * r] == DrawOpModel::ClearLine
                && rows_ops(mode, n, size, lines)[3 * r + 1] == DrawOpModel::Print(
                row_text(mode, r as nat, size, lines),
            ),
    decreases n,
{
    if n > 0 {
        let m = (n - 1) as nat;
        lemma_rows_layout(mode, m, size, lines);
        let prev = rows_ops(mode, m, size, lines);
        let row = row_ops(mode, m, size, lines);
        assert(rows_ops(mode, n, size, lines) == prev + row);
        assert forall|r: int| 0 <= r < n implies #[trigger] rows_ops(mode, n, size, lines)[3 * r]
            == DrawOpModel::ClearLine && rows_ops(mode, n, size, lines)[3 * r + 1]
            == DrawOpModel::Print(row_text(mode, r as nat, size, lines)) by {
            if r < m {
                assert(prev[3 * r] == DrawOpModel::ClearLine);
            }
        }
    }
}

/// The first frame shows the welcome banner at one third of the height.
/// After one event of any kind the banner is gone: each row of the next
/// frame shows the buffer's line or a tilde, or the frame is the farewell,
/// which draws no rows.
pub proof fn lemma_banner_until_first_event(
    cursor: Position,
    size: Size,
    lines: Seq<Seq<char>>,
    event: Event,
)
    requires
        size.height > 0,
    ensures
        frame_ops(RenderMode::Welcome, cursor, size, lines)[3 * (size.height / 3) + 3]
            == DrawOpModel::Print(welcome_line(size.width as nat)),
        next_mode(RenderMode::Welcome, event) == RenderMode::Content ==> forall|r: int|
            0 <= r < size.height ==> #[trigger] frame_ops(
                next_mode(RenderMode::Welcome, event),
                cursor,
                size,
                lines,
            )[3 * r + 3] == DrawOpModel::Print(content_text(r as nat, lines)),
        next_mode(RenderMode::Welcome, event) == RenderMode::Farewell ==> frame_ops(
            next_mode(RenderMode::Welcome, event),
            cursor,
            size,
            lines,
        ) == seq![
            DrawOpModel::ClearScreen,
            DrawOpModel::MoveTo(Position { x: 0, y: 0 }),
            DrawOpModel::Print(farewell_text()),
            DrawOpModel::Flush,
        ],
{
    let h = size.height as nat;
    let head = seq![DrawOpModel::MoveTo(Position { x: 0, y: 0 }), DrawOpModel::HideCursor];
    let tail = seq![DrawOpModel::MoveTo(cursor), DrawOpModel::ShowCursor, DrawOpModel::Flush];
    lemma_rows_layout(RenderMode::Welcome, h, size, lines);
    lemma_rows_layout(RenderMode::Content, h, size, lines);
    let welcome_rows = rows_ops(RenderMode::Welcome, h, size, lines);
    let content_rows = rows_ops(RenderMode::Content, h, size, lines);
    let b = (h / 3) as int;
    assert(welcome_rows[3 * b] == DrawOpModel::ClearLine);
    assert(welcome_rows[3 * b + 1] == DrawOpModel::Print(row_text(RenderMode::Welcome, b as nat, size, lines)));
    assert((head + welcome_rows + tail)[3 * b + 3] == welcome_rows[3 * b + 1]);
    assert forall|r: int| 0 <= r < size.height implies #[trigger] (head + content_rows + tail)[3 * r + 3]
        == DrawOpModel::Print(content_text(r as nat, lines)) by {
        assert(content_rows[3 * r] == DrawOpModel::ClearLine);
        assert(content_rows[3 * r + 1] == DrawOpModel::Print(row_text(RenderMode::Content, r as nat, size, lines)));
    }
}

/// The quit combination leads from any mode to the farewell, whose frame is
/// exactly a screen clear, a move to the origin, the farewell line and a
/// flush.
pub proof fn lemma_quit_draws_farewell(
    mode: RenderMode,
    cursor: Position,
    size: Size,
    lines: Seq<Seq<char>>,
    event: Event,
)
    requires
        is_quit(event),
    ensures
        next_mode(mode, event) == RenderMode::Farewell,
        frame_ops(next_mode(mode, event), cursor, size, lines) == seq![
            DrawOpModel::ClearScreen,
            DrawOpModel::MoveTo(Position { x: 0, y: 0 }),
            DrawOpModel::Print(farewell_text()),
            DrawOpModel::Flush,
        ],
{
}

/// The banner never overflows the screen width, and a product line at least
/// as wide as the screen is cut to exactly the width.
pub proof fn lemma_banner_fits(width: nat)
    ensures
        welcome_line(width).len() <= width,
        product_line().len() >= width ==> welcome_line(width).len() == width,
{
}

} // verus!
