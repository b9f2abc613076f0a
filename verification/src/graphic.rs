//! The character grid and the writer that owns it.

use crate::console::{
    all_fit, blank_row, init_message, init_ops, lemma_init_ops_fit, lemma_println_info_ops_fit,
    lemma_write_char_ops_fit, lemma_write_str_ops_fit, paint_row, paint_rows, Console,
};
use crate::render::DrawCommand;
use vstd::prelude::*;

verus! {

/// Height of the framebuffer in pixels.
pub const FRAME_BUFFER_HEIGHT: usize = 240;

/// Width of the framebuffer in pixels.
pub const FRAME_BUFFER_WIDTH: usize = 320;

/// Height of one glyph in pixels.
pub const FONT_HEIGHT: usize = 8;

/// Width of one glyph in pixels.
pub const FONT_WIDTH: usize = 8;

/// Number of text rows that fit the framebuffer.
pub const TEXT_BUFFER_HEIGHT: usize = FRAME_BUFFER_HEIGHT / FONT_HEIGHT;

/// Number of text columns that fit the framebuffer.
pub const TEXT_BUFFER_WIDTH: usize = FRAME_BUFFER_WIDTH / FONT_WIDTH;

/// Palette index of the background that the console starts with.
pub const DEFAULT_BG_COLOR: u8 = 0x00;

/// Palette index of the foreground that the console starts with.
pub const DEFAULT_FG_COLOR: u8 = 0xff;

/// Palette index of the foreground of the tag of a status line.
pub const OK_COLOR: u8 = 0x10;

/// One character position of the console: a character and its two palette
/// indices.
#[derive(Debug, Clone, Copy, PartialEq, Eq, Structural)]
pub struct ScreenChar {
    pub character: char,
    pub bg_color: u8,
    pub fg_color: u8,
}

/// The cell that every position holds until something is written there: a
/// space, bright on black.
pub open spec fn default_cell() -> ScreenChar {
    ScreenChar { character: ' ', bg_color: DEFAULT_BG_COLOR, fg_color: DEFAULT_FG_COLOR }
}

impl ScreenChar {
    /// The default cell.
    pub fn new() -> (cell: ScreenChar)
        ensures
            cell == default_cell(),
        no_unwind
    {
        ScreenChar { character: ' ', bg_color: DEFAULT_BG_COLOR, fg_color: DEFAULT_FG_COLOR }
    }
}

/// The cells of the console, row 0 the oldest line. Pure storage: the size
/// is fixed and every cell always holds a value.
struct TextBuffer {
    chars: [[ScreenChar; TEXT_BUFFER_WIDTH]; TEXT_BUFFER_HEIGHT],
}

impl View for TextBuffer {
    type V = Seq<Seq<ScreenChar>>;

    closed spec fn view(&self) -> Seq<Seq<ScreenChar>> {
        Seq::new(TEXT_BUFFER_HEIGHT as nat, |r: int| self.chars[r]@)
    }
}

impl TextBuffer {
    /// A buffer of default cells.
    fn new() -> (buffer: TextBuffer)
        ensures
            buffer@ == Console::fresh().rows,
    {
        let buffer = TextBuffer { chars: [[ScreenChar::new(); TEXT_BUFFER_WIDTH]; TEXT_BUFFER_HEIGHT] };
        assert(buffer@ =~~= Console::fresh().rows);
        buffer
    }

    /// The cell at `row`, `col`.
    fn get(&self, row: usize, col: usize) -> (cell: ScreenChar)
        requires
            row < TEXT_BUFFER_HEIGHT,
            col < TEXT_BUFFER_WIDTH,
        ensures
            cell == self@[row as int][col as int],
    {
        self.chars[row][col]
    }

    /// Stores `cell` at `row`, `col`.
    fn set(&mut self, row: usize, col: usize, cell: ScreenChar)
        requires
            row < TEXT_BUFFER_HEIGHT,
            col < TEXT_BUFFER_WIDTH,
        ensures
            final(self)@ == old(self)@.update(row as int, old(self)@[row as int].update(col as int, cell)),
        no_unwind
    {
        self.chars[row][col] = cell;
        assert(self@ =~~= old(self)@.update(row as int, old(self)@[row as int].update(col as int, cell)));
    }

    /// Moves every row up by one, dropping row 0, and fills the bottom row
    /// with default cells.
    fn scroll(&mut self)
        ensures
            final(self)@ == old(self)@.drop_first().push(blank_row()),
        no_unwind
    {
        let mut row: usize = 1;
        while row < TEXT_BUFFER_HEIGHT
            invariant
                1 <= row <= TEXT_BUFFER_HEIGHT,
                forall|r: int| 0 <= r < row - 1 ==> self@[r] == old(self)@[r + 1],
                forall|r: int| row - 1 <= r < TEXT_BUFFER_HEIGHT ==> self@[r] == old(self)@[r],
            decreases TEXT_BUFFER_HEIGHT - row,
        {
            let ghost held = self@;
            self.chars[row - 1] = self.chars[row];
            assert(self@ =~~= held.update(row - 1, held[row as int]));
            row += 1;
        }
        let mut col: usize = 0;
        while col < TEXT_BUFFER_WIDTH
            invariant
                col <= TEXT_BUFFER_WIDTH,
                forall|r: int| 0 <= r < TEXT_BUFFER_HEIGHT - 1 ==> self@[r] == old(self)@[r + 1],
                forall|c: int|
                    0 <= c < col ==> #[trigger] self@[TEXT_BUFFER_HEIGHT - 1][c] == default_cell(),
            decreases TEXT_BUFFER_WIDTH - col,
        {
            let ghost held = self@;
            self.chars[TEXT_BUFFER_HEIGHT - 1][col] = ScreenChar::new();
            assert(self@ =~~= held.update(
                TEXT_BUFFER_HEIGHT - 1,
                held[TEXT_BUFFER_HEIGHT - 1].update(col as int, default_cell()),
            ));
            col += 1;
        }
        assert(self@ =~~= old(self)@.drop_first().push(blank_row()));
    }
}

/// The console: a grid of cells, the column of the next character and the
/// colours that the next character gets.
pub struct TextWriter {
    text_buffer: TextBuffer,
    column_pos: usize,
    bg_color: u8,
    fg_color: u8,
}

impl View for TextWriter {
    type V = Console;

    closed spec fn view(&self) -> Console {
        Console {
            rows: self.text_buffer@,
            column: self.column_pos as nat,
            bg_color: self.bg_color,
            fg_color: self.fg_color,
        }
    }
}

impl TextWriter {
    /// What holds of every writer: its state is well formed.
    #[verifier::type_invariant]
    pub open spec fn inv(self) -> bool {
        self@.wf()
    }

    /// A console on which nothing has been written.
    pub fn new() -> (writer: TextWriter)
        ensures
            writer@ == Console::fresh(),
            writer@.wf(),
    {
        TextWriter {
            text_buffer: TextBuffer::new(),
            column_pos: 0,
            bg_color: DEFAULT_BG_COLOR,
            fg_color: DEFAULT_FG_COLOR,
        }
    }

    /// Sets the colours of the characters written from now on. What is on
    /// the grid keeps its colours.
    pub fn set_color(&mut self, bg: u8, fg: u8)
        ensures
            final(self)@ == old(self)@.set_color(bg, fg),
            final(self)@.wf(),
    {
        proof {
            use_type_invariant(&*self);
        }
        self.bg_color = bg;
        self.fg_color = fg;
    }

    /// The column at which the next character goes: on the line, or just
    /// past its end when the line is full.
    pub fn column_pos(&self) -> (column: usize)
        ensures
            column == self@.column,
            column <= TEXT_BUFFER_WIDTH,
    {
        proof {
            use_type_invariant(self);
        }
        self.column_pos
    }

    /// The background and the foreground that the next character gets.
    pub fn colors(&self) -> (colors: (u8, u8))
        ensures
            colors.0 == self@.bg_color,
            colors.1 == self@.fg_color,
    {
        (self.bg_color, self.fg_color)
    }

    /// The cell at `row`, `col`, if that is on the grid.
    pub fn cell(&self, row: usize, col: usize) -> (cell: Option<ScreenChar>)
        ensures
            cell == if row < TEXT_BUFFER_HEIGHT && col < TEXT_BUFFER_WIDTH {
                Some(self@.rows[row as int][col as int])
            } else {
                None
            },
    {
        if row < TEXT_BUFFER_HEIGHT && col < TEXT_BUFFER_WIDTH {
            Some(self.text_buffer.get(row, col))
        } else {
            None
        }
    }

    /// Writes one character. A newline starts a new line. Any other character
    /// goes to the cursor on the bottom row, after starting a new line if the
    /// row is full, and its cell is repainted. Returns what is to be drawn.
    pub fn write_char(&mut self, character: char) -> (ops: Vec<DrawCommand>)
        ensures
            final(self)@ == old(self)@.write_char(character),
            ops@ == old(self)@.write_char_ops(character),
            final(self)@.wf(),
            all_fit(ops@),
    {
        proof {
            use_type_invariant(&*self);
            lemma_write_char_ops_fit(self@, character);
        }
        if character == '\n' {
            return self.new_line();
        }
        let mut ops: Vec<DrawCommand> = Vec::new();
        if self.column_pos >= TEXT_BUFFER_WIDTH {
            ops = self.new_line();
        }
        proof {
            use_type_invariant(&*self);
        }
        let row: usize = TEXT_BUFFER_HEIGHT - 1;
        let col: usize = self.column_pos;
        let cell = ScreenChar { character, bg_color: self.bg_color, fg_color: self.fg_color };
        self.column_pos = col + 1;
        self.text_buffer.set(row, col, cell);
        ops.push(self.render_text_buffer_col(0, col));
        ops
    }

    /// Writes the characters of `s` in order. Returns what is to be drawn.
    pub fn write_string(&mut self, s: &str) -> (ops: Vec<DrawCommand>)
        ensures
            final(self)@ == old(self)@.write_str(s@),
            ops@ == old(self)@.write_str_ops(s@),
            final(self)@.wf(),
            all_fit(ops@),
    {
        proof {
            use_type_invariant(&*self);
            lemma_write_str_ops_fit(self@, s@);
        }
        let ghost before = self@;
        let mut ops: Vec<DrawCommand> = Vec::new();
        for character in it: s.chars()
            invariant
                it.seq() == s@,
                self@ == before.write_str(s@.take(it.index())),
                ops@ == before.write_str_ops(s@.take(it.index())),
                self@.wf(),
        {
            proof {
                let done = s@.take(it.index());
                let next = s@.take(it.index() + 1);
                assert(next.drop_last() =~= done);
                assert(next.last() == character);
            }
            let mut more = self.write_char(character);
            ops.append(&mut more);
        }
        proof {
            assert(s@.take(s@.len() as int) =~= s@);
        }
        ops
    }

    /// Writes `s` and ends the line. Returns what is to be drawn.
    pub fn println(&mut self, s: &str) -> (ops: Vec<DrawCommand>)
        ensures
            final(self)@ == old(self)@.println(s@),
            ops@ == old(self)@.println_ops(s@),
            final(self)@.wf(),
            all_fit(ops@),
    {
        proof {
            use_type_invariant(&*self);
            lemma_write_str_ops_fit(self@, s@);
        }
        let mut ops = self.write_string(s);
        let mut end = self.write_char('\n');
        ops.append(&mut end);
        ops
    }

    /// Writes a status line: `[ok] `, the tag in its own colour, then `s`
    /// and the end of the line. The default colours are set when it returns.
    /// Returns what is to be drawn.
    pub fn println_info(&mut self, s: &str) -> (ops: Vec<DrawCommand>)
        ensures
            final(self)@ == old(self)@.println_info(s@),
            ops@ == old(self)@.println_info_ops(s@),
            final(self)@.wf(),
            all_fit(ops@),
    {
        proof {
            use_type_invariant(&*self);
            lemma_println_info_ops_fit(self@, s@);
            reveal_strlit("ok");
            reveal_strlit("] ");
            assert("ok"@ =~= seq!['o', 'k']);
            assert("] "@ =~= seq![']', ' ']);
        }
        let mut ops = self.write_char('[');
        self.set_color(DEFAULT_BG_COLOR, OK_COLOR);
        let mut tag = self.write_string("ok");
        ops.append(&mut tag);
        self.set_color(DEFAULT_BG_COLOR, DEFAULT_FG_COLOR);
        let mut close = self.write_string("] ");
        ops.append(&mut close);
        let mut rest = self.println(s);
        ops.append(&mut rest);
        ops
    }

    /// Repaints the whole grid, row by row from the top. The console itself
    /// does not change.
    pub fn render_text_buffer(&mut self) -> (ops: Vec<DrawCommand>)
        ensures
            *final(self) == *old(self),
            ops@ == old(self)@.render_ops(),
            all_fit(ops@),
    {
        proof {
            use_type_invariant(&*self);
            lemma_write_char_ops_fit(self@, ' ');
        }
        let mut ops: Vec<DrawCommand> = Vec::new();
        let mut row: usize = 0;
        while row < TEXT_BUFFER_HEIGHT
            invariant
                row <= TEXT_BUFFER_HEIGHT,
                *self == *old(self),
                ops@ == paint_rows(self@.rows, row as nat),
            decreases TEXT_BUFFER_HEIGHT - row,
        {
            let mut more = self.render_text_buffer_row(TEXT_BUFFER_HEIGHT - 1 - row);
            ops.append(&mut more);
            row += 1;
        }
        ops
    }

    /// Repaints the line that stands `row` lines above the line being
    /// written, cell by cell from the left: 0 is the bottom row of the grid,
    /// the last the top row.
    pub fn render_text_buffer_row(&self, row: usize) -> (ops: Vec<DrawCommand>)
        requires
            row < TEXT_BUFFER_HEIGHT,
        ensures
            ops@ == paint_row(self@.rows, TEXT_BUFFER_HEIGHT - 1 - row),
    {
        let mut ops: Vec<DrawCommand> = Vec::new();
        let mut col: usize = 0;
        while col < TEXT_BUFFER_WIDTH
            invariant
                row < TEXT_BUFFER_HEIGHT,
                col <= TEXT_BUFFER_WIDTH,
                ops@ == paint_row(self@.rows, TEXT_BUFFER_HEIGHT - 1 - row).take(col as int),
            decreases TEXT_BUFFER_WIDTH - col,
        {
            ops.push(self.render_text_buffer_col(row, col));
            col += 1;
        }
        ops
    }

    /// Repaints the one cell at column `col` of the line that stands `row`
    /// lines above the line being written. That line is row
    /// `TEXT_BUFFER_HEIGHT - 1 - row` of the grid and is painted at the
    /// glyph row of that number on the display.
    pub fn render_text_buffer_col(&self, row: usize, col: usize) -> (op: DrawCommand)
        requires
            row < TEXT_BUFFER_HEIGHT,
            col < TEXT_BUFFER_WIDTH,
        ensures
            op == (DrawCommand::PaintCell {
                row: (TEXT_BUFFER_HEIGHT - 1 - row) as usize,
                col,
                cell: self@.rows[TEXT_BUFFER_HEIGHT - 1 - row][col as int],
            }),
    {
        let grid_row: usize = TEXT_BUFFER_HEIGHT - 1 - row;
        DrawCommand::PaintCell { row: grid_row, col, cell: self.text_buffer.get(grid_row, col) }
    }

    /// Starts a new line: the oldest row leaves the grid, the others move up
    /// by one, and a blank row comes in at the bottom. The top row is
    /// repainted before the shift; after it the display is scrolled as one
    /// block and the bottom and top rows are repainted.
    pub fn new_line(&mut self) -> (ops: Vec<DrawCommand>)
        ensures
            final(self)@ == old(self)@.new_line(),
            ops@ == old(self)@.new_line_ops(),
            final(self)@.wf(),
            all_fit(ops@),
    {
        proof {
            use_type_invariant(&*self);
            lemma_write_char_ops_fit(self@, '\n');
        }
        let mut ops = self.render_text_buffer_row(TEXT_BUFFER_HEIGHT - 1);
        self.text_buffer.scroll();
        self.column_pos = 0;
        ops.push(DrawCommand::ScrollUp);
        let mut bottom = self.render_text_buffer_row(0);
        ops.append(&mut bottom);
        let mut top = self.render_text_buffer_row(TEXT_BUFFER_HEIGHT - 1);
        ops.append(&mut top);
        ops
    }
}

/// Starts the display: sets the mode, clears the frame, paints the grid of
/// `writer` and writes the status line that reports it. Returns what is to be
/// drawn.
pub fn init_graphics(writer: &mut TextWriter) -> (ops: Vec<DrawCommand>)
    ensures
        final(writer)@ == old(writer)@.println_info(init_message()),
        ops@ == init_ops(old(writer)@),
        final(writer)@.wf(),
        all_fit(ops@),
{
    proof {
        use_type_invariant(&*writer);
        lemma_init_ops_fit(writer@);
    }
    let mut ops: Vec<DrawCommand> = Vec::new();
    ops.push(DrawCommand::SetMode);
    ops.push(DrawCommand::ClearScreen { color: DEFAULT_BG_COLOR });
    let mut grid = writer.render_text_buffer();
    ops.append(&mut grid);
    let mut line = writer.println_info("VGA Initialized.");
    ops.append(&mut line);
    ops
}

} // verus!
