//! The console as a state machine over plain values.

use crate::graphic::{
    default_cell, ScreenChar, DEFAULT_BG_COLOR, DEFAULT_FG_COLOR, OK_COLOR, TEXT_BUFFER_HEIGHT,
    TEXT_BUFFER_WIDTH,
};
use crate::render::DrawCommand;
use vstd::prelude::*;

verus! {

/// The state of a console: the grid, row 0 the oldest line and the last row
/// the line being written, the column of the next character, and the colours
/// that the next character gets.
pub struct Console {
    pub rows: Seq<Seq<ScreenChar>>,
    pub column: nat,
    pub bg_color: u8,
    pub fg_color: u8,
}

/// A row of default cells.
pub open spec fn blank_row() -> Seq<ScreenChar> {
    Seq::new(TEXT_BUFFER_WIDTH as nat, |c: int| default_cell())
}

/// The commands that repaint row `row` of `rows`, cell by cell from the left.
pub open spec fn paint_row(rows: Seq<Seq<ScreenChar>>, row: int) -> Seq<DrawCommand> {
    Seq::new(
        TEXT_BUFFER_WIDTH as nat,
        |c: int| DrawCommand::PaintCell { row: row as usize, col: c as usize, cell: rows[row][c] },
    )
}

/// The commands that repaint the first `count` rows of `rows`, from the top.
pub open spec fn paint_rows(rows: Seq<Seq<ScreenChar>>, count: nat) -> Seq<DrawCommand>
    decreases count,
{
    if count == 0 {
        Seq::empty()
    } else {
        paint_rows(rows, (count - 1) as nat) + paint_row(rows, count - 1)
    }
}

impl Console {
    /// The grid has its fixed size, the cursor is on the line or just past
    /// its end, and the line being written is blank from the cursor on.
    pub open spec fn wf(self) -> bool {
        &&& self.rows.len() == TEXT_BUFFER_HEIGHT
        &&& forall|r: int| 0 <= r < TEXT_BUFFER_HEIGHT ==> (#[trigger] self.rows[r]).len() == TEXT_BUFFER_WIDTH
        &&& self.column <= TEXT_BUFFER_WIDTH
        &&& forall|c: int|
            self.column <= c < TEXT_BUFFER_WIDTH ==> #[trigger] self.rows[TEXT_BUFFER_HEIGHT - 1][c]
                == default_cell()
    }

    /// The console before anything is written: every cell the default cell,
    /// the cursor at column 0, bright on black.
    pub open spec fn fresh() -> Console {
        Console {
            rows: Seq::new(TEXT_BUFFER_HEIGHT as nat, |r: int| blank_row()),
            column: 0,
            bg_color: DEFAULT_BG_COLOR,
            fg_color: DEFAULT_FG_COLOR,
        }
    }

    /// The cell that writing `character` now would store.
    pub open spec fn pen(self, character: char) -> ScreenChar {
        ScreenChar { character, bg_color: self.bg_color, fg_color: self.fg_color }
    }

    /// The colours change; the grid and the cursor stay.
    pub open spec fn set_color(self, bg: u8, fg: u8) -> Console {
        Console { bg_color: bg, fg_color: fg, ..self }
    }

    /// The oldest row leaves, every other row moves up by one, a blank row
    /// comes in at the bottom, and the cursor goes back to column 0.
    pub open spec fn new_line(self) -> Console {
        Console { rows: self.rows.drop_first().push(blank_row()), column: 0, ..self }
    }

    /// `character` is stored at the cursor, in the current colours, and the
    /// cursor moves one column on.
    pub open spec fn put(self, character: char) -> Console {
        let last: int = TEXT_BUFFER_HEIGHT - 1;
        Console {
            rows: self.rows.update(last, self.rows[last].update(self.column as int, self.pen(character))),
            column: self.column + 1,
            ..self
        }
    }

    /// A newline starts a new line and stores nothing. Any other character is
    /// stored at the cursor, on a new line if the current one is full.
    pub open spec fn write_char(self, character: char) -> Console {
        if character == '\n' {
            self.new_line()
        } else if self.column >= TEXT_BUFFER_WIDTH {
            self.new_line().put(character)
        } else {
            self.put(character)
        }
    }

    /// The characters of `text` written one after the other.
    pub open spec fn write_str(self, text: Seq<char>) -> Console
        decreases text.len(),
    {
        if text.len() == 0 {
            self
        } else {
            self.write_str(text.drop_last()).write_char(text.last())
        }
    }

    /// `text` written and the line ended.
    pub open spec fn println(self, text: Seq<char>) -> Console {
        self.write_str(text).write_char('\n')
    }

    /// A status line written: an opening bracket, the tag `ok` in the colour
    /// of the tag, then, in the default colours, a closing bracket, a space,
    /// the message and the end of the line. The default colours stay set.
    pub open spec fn println_info(self, message: Seq<char>) -> Console {
        self.write_char('[').set_color(DEFAULT_BG_COLOR, OK_COLOR).write_str(seq!['o', 'k']).set_color(
            DEFAULT_BG_COLOR,
            DEFAULT_FG_COLOR,
        ).write_str(seq![']', ' ']).println(message)
    }

    /// Repainting everything: every row, from the top.
    pub open spec fn render_ops(self) -> Seq<DrawCommand> {
        paint_rows(self.rows, TEXT_BUFFER_HEIGHT as nat)
    }

    /// What a new line draws. The top row is repainted where it stands. Then
    /// the rows below it are moved up as one block, and the two rows at the
    /// edges of the moved block are repainted from the grid as it is after the
    /// shift: the blank row that came in at the bottom, then the top row.
    pub open spec fn new_line_ops(self) -> Seq<DrawCommand> {
        paint_row(self.rows, 0) + seq![DrawCommand::ScrollUp] + paint_row(
            self.new_line().rows,
            TEXT_BUFFER_HEIGHT - 1,
        ) + paint_row(self.new_line().rows, 0)
    }

    /// What storing a character draws: the one cell it was stored in.
    pub open spec fn put_ops(self, character: char) -> Seq<DrawCommand> {
        seq![
            DrawCommand::PaintCell {
                row: (TEXT_BUFFER_HEIGHT - 1) as usize,
                col: self.column as usize,
                cell: self.pen(character),
            },
        ]
    }

    /// What `write_char` draws.
    pub open spec fn write_char_ops(self, character: char) -> Seq<DrawCommand> {
        if character == '\n' {
            self.new_line_ops()
        } else if self.column >= TEXT_BUFFER_WIDTH {
            self.new_line_ops() + self.new_line().put_ops(character)
        } else {
            self.put_ops(character)
        }
    }

    /// What `println` draws.
    pub open spec fn println_ops(self, text: Seq<char>) -> Seq<DrawCommand> {
        self.write_str_ops(text) + self.write_str(text).write_char_ops('\n')
    }

    /// What `println_info` draws: what each of its parts draws, in order.
    pub open spec fn println_info_ops(self, message: Seq<char>) -> Seq<DrawCommand> {
        let tag = self.write_char('[').set_color(DEFAULT_BG_COLOR, OK_COLOR);
        let rest = tag.write_str(seq!['o', 'k']).set_color(DEFAULT_BG_COLOR, DEFAULT_FG_COLOR);
        self.write_char_ops('[') + tag.write_str_ops(seq!['o', 'k']) + rest.write_str_ops(seq![']', ' '])
            + rest.write_str(seq![']', ' ']).println_ops(message)
    }

    /// What `write_str` draws: what each character draws, in order.
    pub open spec fn write_str_ops(self, text: Seq<char>) -> Seq<DrawCommand>
        decreases text.len(),
    {
        if text.len() == 0 {
            Seq::empty()
        } else {
            self.write_str_ops(text.drop_last()) + self.write_str(text.drop_last()).write_char_ops(
                text.last(),
            )
        }
    }
}

/// The message of the status line that ends the start of the display.
pub open spec fn init_message() -> Seq<char> {
    "VGA Initialized."@
}

/// What the start of the display draws: the mode is set, the frame is
/// cleared to the default background, the whole grid is painted, and the
/// status line is written.
pub open spec fn init_ops(console: Console) -> Seq<DrawCommand> {
    seq![DrawCommand::SetMode, DrawCommand::ClearScreen { color: DEFAULT_BG_COLOR }] + console.render_ops()
        + console.println_info_ops(init_message())
}

/// Every command of `ops` that paints a cell paints one that lies on the
/// grid.
pub open spec fn all_fit(ops: Seq<DrawCommand>) -> bool {
    forall|i: int| 0 <= i < ops.len() ==> (#[trigger] ops[i]).wf()
}

/// Repainting rows of the grid stays on the grid.
pub proof fn lemma_paint_rows_fit(rows: Seq<Seq<ScreenChar>>, count: nat)
    requires
        count <= TEXT_BUFFER_HEIGHT,
    ensures
        all_fit(paint_rows(rows, count)),
        forall|row: int| 0 <= row < TEXT_BUFFER_HEIGHT ==> all_fit(#[trigger] paint_row(rows, row)),
    decreases count,
{
    if count > 0 {
        lemma_paint_rows_fit(rows, (count - 1) as nat);
    }
}

/// What a new line, a character or a full repaint draws stays on the grid.
pub proof fn lemma_write_char_ops_fit(console: Console, character: char)
    requires
        console.wf(),
    ensures
        all_fit(console.render_ops()),
        all_fit(console.new_line_ops()),
        all_fit(console.write_char_ops(character)),
{
    lemma_paint_rows_fit(console.rows, TEXT_BUFFER_HEIGHT as nat);
    lemma_paint_rows_fit(console.new_line().rows, 0);
    lemma_write_char_wf(console, character);
}

/// What writing a text draws stays on the grid, with or without the end of
/// the line.
pub proof fn lemma_write_str_ops_fit(console: Console, text: Seq<char>)
    requires
        console.wf(),
    ensures
        all_fit(console.write_str_ops(text)),
        all_fit(console.println_ops(text)),
    decreases text.len(),
{
    if text.len() > 0 {
        let head = text.drop_last();
        lemma_write_str_ops_fit(console, head);
        lemma_write_str_wf(console, head);
        lemma_write_char_ops_fit(console.write_str(head), text.last());
    }
    lemma_write_str_wf(console, text);
    lemma_write_char_ops_fit(console.write_str(text), '\n');
}

/// A status line keeps the console well formed, and what it draws stays on
/// the grid.
pub proof fn lemma_println_info_ops_fit(console: Console, message: Seq<char>)
    requires
        console.wf(),
    ensures
        console.println_info(message).wf(),
        all_fit(console.println_info_ops(message)),
{
    let tag = console.write_char('[').set_color(DEFAULT_BG_COLOR, OK_COLOR);
    let rest = tag.write_str(seq!['o', 'k']).set_color(DEFAULT_BG_COLOR, DEFAULT_FG_COLOR);
    let closed = rest.write_str(seq![']', ' ']);
    lemma_write_char_wf(console, '[');
    lemma_write_char_ops_fit(console, '[');
    lemma_write_str_wf(tag, seq!['o', 'k']);
    lemma_write_str_ops_fit(tag, seq!['o', 'k']);
    lemma_write_str_wf(rest, seq![']', ' ']);
    lemma_write_str_ops_fit(rest, seq![']', ' ']);
    lemma_write_str_ops_fit(closed, message);
    lemma_write_str_wf(closed, message);
    lemma_write_char_wf(closed.write_str(message), '\n');
}

/// What the start of the display draws stays on the grid.
pub proof fn lemma_init_ops_fit(console: Console)
    requires
        console.wf(),
    ensures
        all_fit(init_ops(console)),
{
    lemma_write_char_ops_fit(console, ' ');
    lemma_println_info_ops_fit(console, init_message());
}

/// Writing keeps the console well formed: the grid keeps its size, the
/// cursor stays on the line or just past its end, and the line being written
/// stays blank from the cursor on.
pub proof fn lemma_write_char_wf(console: Console, character: char)
    requires
        console.wf(),
    ensures
        console.write_char(character).wf(),
        console.new_line().wf(),
        console.column < TEXT_BUFFER_WIDTH ==> console.put(character).wf(),
{
}

/// Writing any text keeps the console well formed.
pub proof fn lemma_write_str_wf(console: Console, text: Seq<char>)
    requires
        console.wf(),
    ensures
        console.write_str(text).wf(),
    decreases text.len(),
{
    if text.len() > 0 {
        lemma_write_str_wf(console, text.drop_last());
        lemma_write_char_wf(console.write_str(text.drop_last()), text.last());
    }
}

} // verus!
