//! What the framebuffer primitives do to the pixels, as plain mathematics,
//! and what the console's drawing commands therefore leave on the display.
//!
//! Nothing here runs. The shapes of the glyphs are a parameter: every
//! statement holds whatever the font draws.

use crate::graphic::{
    ScreenChar, DEFAULT_BG_COLOR, DEFAULT_FG_COLOR, FONT_HEIGHT, FONT_WIDTH, FRAME_BUFFER_HEIGHT,
    FRAME_BUFFER_WIDTH, OK_COLOR, TEXT_BUFFER_HEIGHT, TEXT_BUFFER_WIDTH,
};
use crate::console::{
    init_message, init_ops, lemma_write_char_wf, lemma_write_str_wf, paint_row, paint_rows, Console,
};
use crate::render::{fill_calls, DrawCommand, DriverCall, SCROLLED_HEIGHT};
use vstd::prelude::*;

verus! {

/// The shapes of the glyphs: whether the glyph of a character has the pixel
/// at column `dx`, row `dy` of its block set.
pub type Font = spec_fn(char, int, int) -> bool;

/// The palette index of every pixel of the frame, by pixel row and then by
/// pixel column.
pub struct Screen {
    pub pixels: Seq<Seq<u8>>,
}

/// The colour of the pixel at `dx`, `dy` within the block of `cell`: the
/// foreground where the glyph is set, the background elsewhere.
pub open spec fn cell_pixel(cell: ScreenChar, dx: int, dy: int, font: Font) -> u8 {
    if font(cell.character, dx, dy) {
        cell.fg_color
    } else {
        cell.bg_color
    }
}

/// The display on which every cell of `rows` has been painted: row `r` of the
/// grid fills the pixel rows from `r * FONT_HEIGHT` on, column `c` the pixel
/// columns from `c * FONT_WIDTH` on.
pub open spec fn painted(rows: Seq<Seq<ScreenChar>>, font: Font) -> Screen {
    Screen {
        pixels: Seq::new(
            FRAME_BUFFER_HEIGHT as nat,
            |py: int|
                Seq::new(
                    FRAME_BUFFER_WIDTH as nat,
                    |px: int|
                        cell_pixel(
                            rows[py / (FONT_HEIGHT as int)][px / (FONT_WIDTH as int)],
                            px % (FONT_WIDTH as int),
                            py % (FONT_HEIGHT as int),
                            font,
                        ),
                ),
        ),
    }
}

impl Screen {
    /// The frame has its fixed size.
    pub open spec fn wf(self) -> bool {
        &&& self.pixels.len() == FRAME_BUFFER_HEIGHT
        &&& forall|py: int|
            0 <= py < FRAME_BUFFER_HEIGHT ==> (#[trigger] self.pixels[py]).len() == FRAME_BUFFER_WIDTH
    }

    /// The display after one call of a framebuffer primitive. Clearing sets
    /// every pixel; setting a pixel sets that one; drawing a character sets
    /// the pixels of its glyph and no others; moving rows copies them from
    /// where they stood before. What a change of mode leaves on the display
    /// is not known: it counts here as leaving the pixels alone, and the
    /// console clears the frame right after it. A call that reaches beyond
    /// the frame is given a meaning only to have one: the console makes none.
    pub open spec fn call(self, call: DriverCall, font: Font) -> Screen {
        match call {
            DriverCall::SetMode => self,
            DriverCall::ClearScreen { color } => Screen {
                pixels: Seq::new(
                    FRAME_BUFFER_HEIGHT as nat,
                    |py: int| Seq::new(FRAME_BUFFER_WIDTH as nat, |px: int| color),
                ),
            },
            DriverCall::SetPixel { x, y, color } => if x < FRAME_BUFFER_WIDTH && y < FRAME_BUFFER_HEIGHT {
                Screen { pixels: self.pixels.update(y as int, self.pixels[y as int].update(x as int, color)) }
            } else {
                self
            },
            DriverCall::DrawCharacter { x, y, character, color } => Screen {
                pixels: Seq::new(
                    FRAME_BUFFER_HEIGHT as nat,
                    |py: int|
                        Seq::new(
                            FRAME_BUFFER_WIDTH as nat,
                            |px: int|
                                if x <= px < x + FONT_WIDTH && y <= py < y + FONT_HEIGHT && font(
                                    character,
                                    px - x,
                                    py - y,
                                ) {
                                    color
                                } else {
                                    self.pixels[py][px]
                                },
                        ),
                ),
            },
            DriverCall::MoveRows { from, to, count } => Screen {
                pixels: Seq::new(
                    FRAME_BUFFER_HEIGHT as nat,
                    |py: int|
                        if to <= py < to + count && py - to + from < FRAME_BUFFER_HEIGHT {
                            self.pixels[py - to + from]
                        } else {
                            self.pixels[py]
                        },
                ),
            },
        }
    }

    /// The display after `calls`, made in order.
    pub open spec fn calls(self, calls: Seq<DriverCall>, font: Font) -> Screen
        decreases calls.len(),
    {
        if calls.len() == 0 {
            self
        } else {
            self.calls(calls.drop_last(), font).call(calls.last(), font)
        }
    }

    /// The display after one drawing command: after the calls it lowers to.
    pub open spec fn draw(self, command: DrawCommand, font: Font) -> Screen {
        self.calls(command.calls(), font)
    }

    /// The display after `commands`, carried out in order.
    pub open spec fn draw_all(self, commands: Seq<DrawCommand>, font: Font) -> Screen
        decreases commands.len(),
    {
        if commands.len() == 0 {
            self
        } else {
            self.draw_all(commands.drop_last(), font).draw(commands.last(), font)
        }
    }

    /// The display with the cells of `rows` in rows `top` to `bottom` and
    /// columns `left` to `right`, each without the upper end, painted over
    /// what was there.
    pub open spec fn repainted(
        self,
        rows: Seq<Seq<ScreenChar>>,
        top: int,
        bottom: int,
        left: int,
        right: int,
        font: Font,
    ) -> Screen {
        Screen {
            pixels: Seq::new(
                FRAME_BUFFER_HEIGHT as nat,
                |py: int|
                    Seq::new(
                        FRAME_BUFFER_WIDTH as nat,
                        |px: int|
                            if top <= py / (FONT_HEIGHT as int) < bottom && left <= px / (FONT_WIDTH as int)
                                < right {
                                painted(rows, font).pixels[py][px]
                            } else {
                                self.pixels[py][px]
                            },
                    ),
            ),
        }
    }

    /// The display whose pixel rows have moved up by one glyph row. The
    /// lowest glyph row keeps what it showed.
    pub open spec fn scrolled(self) -> Screen {
        Screen {
            pixels: Seq::new(
                FRAME_BUFFER_HEIGHT as nat,
                |py: int|
                    if py < FRAME_BUFFER_HEIGHT - FONT_HEIGHT {
                        self.pixels[py + FONT_HEIGHT]
                    } else {
                        self.pixels[py]
                    },
            ),
        }
    }

    /// The display shows the grid of `console`: every pixel is what painting
    /// its cell gives.
    pub open spec fn shows(self, console: Console, font: Font) -> bool {
        self == painted(console.rows, font)
    }

    /// The display with the block of the cell at `row`, `col` showing `cell`.
    pub open spec fn with_cell(self, row: int, col: int, cell: ScreenChar, font: Font) -> Screen {
        Screen {
            pixels: Seq::new(
                FRAME_BUFFER_HEIGHT as nat,
                |py: int|
                    Seq::new(
                        FRAME_BUFFER_WIDTH as nat,
                        |px: int|
                            if in_block(row, col, px, py) {
                                cell_pixel(cell, px - col * FONT_WIDTH, py - row * FONT_HEIGHT, font)
                            } else {
                                self.pixels[py][px]
                            },
                    ),
            ),
        }
    }
}

/// Whether the pixel at `px`, `py` lies in the block of the cell at `row`,
/// `col`.
pub open spec fn in_block(row: int, col: int, px: int, py: int) -> bool {
    &&& col * FONT_WIDTH <= px < col * FONT_WIDTH + FONT_WIDTH
    &&& row * FONT_HEIGHT <= py < row * FONT_HEIGHT + FONT_HEIGHT
}

/// Commands carried out one after the other add up.
pub proof fn lemma_draw_all_concat(
    screen: Screen,
    first: Seq<DrawCommand>,
    second: Seq<DrawCommand>,
    font: Font,
)
    ensures
        screen.draw_all(first + second, font) == screen.draw_all(first, font).draw_all(second, font),
    decreases second.len(),
{
    if second.len() == 0 {
        assert(first + second =~= first);
    } else {
        assert((first + second).drop_last() =~= first + second.drop_last());
        lemma_draw_all_concat(screen, first, second.drop_last(), font);
    }
}

/// A single call, made alone.
proof fn lemma_calls_one(screen: Screen, call: DriverCall, font: Font)
    ensures
        screen.calls(seq![call], font) == screen.call(call, font),
{
    let calls = seq![call];
    assert(calls.drop_last() =~= Seq::<DriverCall>::empty());
    assert(screen.calls(calls.drop_last(), font) == screen);
}

/// A single command, carried out alone.
proof fn lemma_draw_one(screen: Screen, command: DrawCommand, font: Font)
    ensures
        screen.draw_all(seq![command], font) == screen.draw(command, font),
{
    let commands = seq![command];
    assert(commands.drop_last() =~= Seq::<DrawCommand>::empty());
    assert(screen.draw_all(commands.drop_last(), font) == screen);
}

/// After the first `count` pixels of a block have been filled, those pixels
/// have the fill colour and every other pixel is as before.
proof fn lemma_fill(screen: Screen, row: usize, col: usize, color: u8, count: int, font: Font)
    requires
        screen.wf(),
        row < TEXT_BUFFER_HEIGHT,
        col < TEXT_BUFFER_WIDTH,
        0 <= count <= FONT_HEIGHT * FONT_WIDTH,
    ensures
        screen.calls(fill_calls(row, col, color, count), font).wf(),
        forall|px: int, py: int|
            0 <= px < FRAME_BUFFER_WIDTH && 0 <= py < FRAME_BUFFER_HEIGHT ==> #[trigger] screen.calls(
                fill_calls(row, col, color, count),
                font,
            ).pixels[py][px] == if in_block(row as int, col as int, px, py) && (py - row * FONT_HEIGHT)
                * FONT_WIDTH + (px - col * FONT_WIDTH) < count {
                color
            } else {
                screen.pixels[py][px]
            },
    decreases count,
{
    if count > 0 {
        lemma_fill(screen, row, col, color, count - 1, font);
        assert(fill_calls(row, col, color, count).drop_last() =~= fill_calls(row, col, color, count - 1));
    }
}

/// Painting a cell leaves its block showing the cell and every other pixel
/// as it was.
pub proof fn lemma_paint_cell(screen: Screen, row: usize, col: usize, cell: ScreenChar, font: Font)
    requires
        screen.wf(),
        row < TEXT_BUFFER_HEIGHT,
        col < TEXT_BUFFER_WIDTH,
    ensures
        screen.draw(DrawCommand::PaintCell { row, col, cell }, font) == screen.with_cell(
            row as int,
            col as int,
            cell,
            font,
        ),
{
    let command = DrawCommand::PaintCell { row, col, cell };
    let fill = fill_calls(row, col, cell.bg_color, FONT_HEIGHT * FONT_WIDTH);
    assert(command.calls().drop_last() =~= fill);
    lemma_fill(screen, row, col, cell.bg_color, FONT_HEIGHT * FONT_WIDTH, font);
    assert(screen.draw(command, font).pixels =~~= screen.with_cell(row as int, col as int, cell, font).pixels);
}

/// Painting the first `count` cells of a row of the grid repaints exactly
/// those cells.
pub proof fn lemma_paint_row_prefix(
    screen: Screen,
    rows: Seq<Seq<ScreenChar>>,
    row: int,
    count: int,
    font: Font,
)
    requires
        screen.wf(),
        0 <= row < TEXT_BUFFER_HEIGHT,
        0 <= count <= TEXT_BUFFER_WIDTH,
    ensures
        screen.draw_all(paint_row(rows, row).take(count), font) == screen.repainted(
            rows,
            row,
            row + 1,
            0,
            count,
            font,
        ),
    decreases count,
{
    let commands = paint_row(rows, row).take(count);
    if count == 0 {
        assert(screen.repainted(rows, row, row + 1, 0, 0, font).pixels =~~= screen.pixels);
    } else {
        lemma_paint_row_prefix(screen, rows, row, count - 1, font);
        let before = screen.draw_all(paint_row(rows, row).take(count - 1), font);
        assert(commands.drop_last() =~= paint_row(rows, row).take(count - 1));
        lemma_paint_cell(before, row as usize, (count - 1) as usize, rows[row][count - 1], font);
        assert(before.with_cell(row, count - 1, rows[row][count - 1], font).pixels
            =~~= screen.repainted(rows, row, row + 1, 0, count, font).pixels);
    }
}

/// Painting a row of the grid repaints exactly that row.
pub proof fn lemma_paint_row(screen: Screen, rows: Seq<Seq<ScreenChar>>, row: int, font: Font)
    requires
        screen.wf(),
        0 <= row < TEXT_BUFFER_HEIGHT,
    ensures
        screen.draw_all(paint_row(rows, row), font) == screen.repainted(
            rows,
            row,
            row + 1,
            0,
            TEXT_BUFFER_WIDTH as int,
            font,
        ),
{
    assert(paint_row(rows, row).take(TEXT_BUFFER_WIDTH as int) =~= paint_row(rows, row));
    lemma_paint_row_prefix(screen, rows, row, TEXT_BUFFER_WIDTH as int, font);
}

/// Painting the first `count` rows of the grid repaints exactly those rows.
pub proof fn lemma_paint_rows(screen: Screen, rows: Seq<Seq<ScreenChar>>, count: nat, font: Font)
    requires
        screen.wf(),
        count <= TEXT_BUFFER_HEIGHT,
    ensures
        screen.draw_all(paint_rows(rows, count), font) == screen.repainted(
            rows,
            0,
            count as int,
            0,
            TEXT_BUFFER_WIDTH as int,
            font,
        ),
    decreases count,
{
    let width = TEXT_BUFFER_WIDTH as int;
    if count == 0 {
        assert(screen.repainted(rows, 0, 0, 0, width, font).pixels =~~= screen.pixels);
    } else {
        let above = (count - 1) as nat;
        lemma_paint_rows(screen, rows, above, font);
        let before = screen.draw_all(paint_rows(rows, above), font);
        lemma_draw_all_concat(screen, paint_rows(rows, above), paint_row(rows, count - 1), font);
        lemma_paint_row(before, rows, count - 1, font);
        assert(before.repainted(rows, count - 1, count as int, 0, width, font).pixels
            =~~= screen.repainted(rows, 0, count as int, 0, width, font).pixels);
    }
}

/// A full repaint leaves the display showing the grid, whatever it showed
/// before.
pub proof fn lemma_render_shows_grid(screen: Screen, console: Console, font: Font)
    requires
        screen.wf(),
    ensures
        screen.draw_all(console.render_ops(), font) == painted(console.rows, font),
{
    lemma_paint_rows(screen, console.rows, TEXT_BUFFER_HEIGHT as nat, font);
    assert(screen.repainted(
        console.rows,
        0,
        TEXT_BUFFER_HEIGHT as int,
        0,
        TEXT_BUFFER_WIDTH as int,
        font,
    ).pixels =~~= painted(console.rows, font).pixels);
}

/// Repainting everything twice in a row, with nothing changed in between,
/// leaves the display after the second time as it was after the first.
pub proof fn lemma_render_idempotent(screen: Screen, console: Console, font: Font)
    requires
        screen.wf(),
    ensures
        screen.draw_all(console.render_ops(), font).draw_all(console.render_ops(), font)
            == screen.draw_all(console.render_ops(), font),
{
    lemma_render_shows_grid(screen, console, font);
    lemma_render_shows_grid(painted(console.rows, font), console, font);
}

/// A scroll moves the pixel rows up by one glyph row.
pub proof fn lemma_scroll(screen: Screen, font: Font)
    requires
        screen.wf(),
    ensures
        screen.draw(DrawCommand::ScrollUp, font) == screen.scrolled(),
{
    let call = DriverCall::MoveRows { from: FONT_HEIGHT, to: 0, count: SCROLLED_HEIGHT };
    lemma_calls_one(screen, call, font);
    assert(screen.call(call, font).pixels =~~= screen.scrolled().pixels);
}

/// A display that shows the grid shows it again after a character has been
/// stored and its cell painted.
pub proof fn lemma_put_keeps_display(screen: Screen, console: Console, character: char, font: Font)
    requires
        console.wf(),
        console.column < TEXT_BUFFER_WIDTH,
        screen.shows(console, font),
    ensures
        screen.draw_all(console.put_ops(character), font).shows(console.put(character), font),
{
    let row = (TEXT_BUFFER_HEIGHT - 1) as usize;
    let col = console.column as usize;
    lemma_draw_one(
        screen,
        DrawCommand::PaintCell { row, col, cell: console.pen(character) },
        font,
    );
    lemma_paint_cell(screen, row, col, console.pen(character), font);
    assert(screen.with_cell(row as int, col as int, console.pen(character), font).pixels =~~= painted(
        console.put(character).rows,
        font,
    ).pixels);
}

/// A display that shows the grid shows it again after a new line: the block
/// move and the repainting of the two edge rows bring every pixel to what
/// the shifted grid calls for.
pub proof fn lemma_new_line_keeps_display(screen: Screen, console: Console, font: Font)
    requires
        console.wf(),
        screen.shows(console, font),
    ensures
        screen.draw_all(console.new_line_ops(), font).shows(console.new_line(), font),
{
    let width = TEXT_BUFFER_WIDTH as int;
    let last = TEXT_BUFFER_HEIGHT - 1;
    let after = console.new_line();
    let top_before = paint_row(console.rows, 0);
    let scroll = seq![DrawCommand::ScrollUp];
    let bottom = paint_row(after.rows, last);
    let top = paint_row(after.rows, 0);
    lemma_draw_all_concat(screen, top_before + scroll + bottom, top, font);
    lemma_draw_all_concat(screen, top_before + scroll, bottom, font);
    lemma_draw_all_concat(screen, top_before, scroll, font);
    lemma_paint_row(screen, console.rows, 0, font);
    let s1 = screen.draw_all(top_before, font);
    assert(s1.pixels =~~= screen.pixels);
    lemma_draw_one(s1, DrawCommand::ScrollUp, font);
    lemma_scroll(s1, font);
    let s2 = s1.draw_all(scroll, font);
    assert(s2 == s1.scrolled());
    lemma_paint_row(s2, after.rows, last, font);
    let s3 = s2.draw_all(bottom, font);
    lemma_paint_row(s3, after.rows, 0, font);
    let s4 = s3.draw_all(top, font);
    assert forall|r: int| 0 <= r < last implies after.rows[r] == console.rows[r + 1] by {}
    assert(s4.pixels =~~= painted(after.rows, font).pixels);
}

/// A display that shows the grid shows it again after any character has been
/// written and what that draws has been drawn.
pub proof fn lemma_write_char_keeps_display(screen: Screen, console: Console, character: char, font: Font)
    requires
        console.wf(),
        screen.shows(console, font),
    ensures
        screen.draw_all(console.write_char_ops(character), font).shows(console.write_char(character), font),
{
    lemma_write_char_wf(console, character);
    if character == '\n' {
        lemma_new_line_keeps_display(screen, console, font);
    } else if console.column >= TEXT_BUFFER_WIDTH {
        lemma_new_line_keeps_display(screen, console, font);
        let moved = screen.draw_all(console.new_line_ops(), font);
        lemma_put_keeps_display(moved, console.new_line(), character, font);
        lemma_draw_all_concat(screen, console.new_line_ops(), console.new_line().put_ops(character), font);
    } else {
        lemma_put_keeps_display(screen, console, character, font);
    }
}

/// A display that shows the grid shows it again after any text has been
/// written and what that draws has been drawn.
pub proof fn lemma_write_str_keeps_display(screen: Screen, console: Console, text: Seq<char>, font: Font)
    requires
        console.wf(),
        screen.shows(console, font),
    ensures
        screen.draw_all(console.write_str_ops(text), font).shows(console.write_str(text), font),
    decreases text.len(),
{
    if text.len() > 0 {
        let head = text.drop_last();
        lemma_write_str_keeps_display(screen, console, head, font);
        lemma_write_str_wf(console, head);
        lemma_write_char_keeps_display(
            screen.draw_all(console.write_str_ops(head), font),
            console.write_str(head),
            text.last(),
            font,
        );
        lemma_draw_all_concat(
            screen,
            console.write_str_ops(head),
            console.write_str(head).write_char_ops(text.last()),
            font,
        );
    }
}

/// A display that shows the grid shows it again after a status line has been
/// written and what that draws has been drawn.
pub proof fn lemma_println_info_keeps_display(
    screen: Screen,
    console: Console,
    message: Seq<char>,
    font: Font,
)
    requires
        console.wf(),
        screen.shows(console, font),
    ensures
        screen.draw_all(console.println_info_ops(message), font).shows(console.println_info(message), font),
{
    let tag = console.write_char('[').set_color(DEFAULT_BG_COLOR, OK_COLOR);
    let rest = tag.write_str(seq!['o', 'k']).set_color(DEFAULT_BG_COLOR, DEFAULT_FG_COLOR);
    let closed = rest.write_str(seq![']', ' ']);
    let written = closed.write_str(message);
    let a = console.write_char_ops('[');
    let b = tag.write_str_ops(seq!['o', 'k']);
    let c = rest.write_str_ops(seq![']', ' ']);
    let d = closed.write_str_ops(message);
    let e = written.write_char_ops('\n');
    lemma_write_char_wf(console, '[');
    lemma_write_str_wf(tag, seq!['o', 'k']);
    lemma_write_str_wf(rest, seq![']', ' ']);
    lemma_write_str_wf(closed, message);
    lemma_write_char_keeps_display(screen, console, '[', font);
    let s1 = screen.draw_all(a, font);
    lemma_write_str_keeps_display(s1, tag, seq!['o', 'k'], font);
    let s2 = s1.draw_all(b, font);
    lemma_write_str_keeps_display(s2, rest, seq![']', ' '], font);
    let s3 = s2.draw_all(c, font);
    lemma_write_str_keeps_display(s3, closed, message, font);
    let s4 = s3.draw_all(d, font);
    lemma_write_char_keeps_display(s4, written, '\n', font);
    lemma_draw_all_concat(screen, a, b, font);
    lemma_draw_all_concat(screen, a + b, c, font);
    lemma_draw_all_concat(s3, d, e, font);
    lemma_draw_all_concat(screen, a + b + c, d + e, font);
}

/// After the start of the display the display shows the grid, whatever it
/// showed before and whatever the change of mode left on it.
pub proof fn lemma_init_shows_grid(screen: Screen, console: Console, font: Font)
    requires
        console.wf(),
        screen.wf(),
    ensures
        screen.draw_all(init_ops(console), font).shows(console.println_info(init_message()), font),
{
    let prepare = seq![DrawCommand::SetMode, DrawCommand::ClearScreen { color: DEFAULT_BG_COLOR }];
    let set_mode = DriverCall::SetMode;
    let clear = DriverCall::ClearScreen { color: DEFAULT_BG_COLOR };
    lemma_draw_all_concat(screen, seq![DrawCommand::SetMode], seq![DrawCommand::ClearScreen { color: DEFAULT_BG_COLOR }], font);
    assert(prepare =~= seq![DrawCommand::SetMode] + seq![DrawCommand::ClearScreen { color: DEFAULT_BG_COLOR }]);
    lemma_draw_one(screen, DrawCommand::SetMode, font);
    lemma_calls_one(screen, set_mode, font);
    lemma_draw_one(screen, DrawCommand::ClearScreen { color: DEFAULT_BG_COLOR }, font);
    lemma_calls_one(screen, clear, font);
    let cleared = screen.draw_all(prepare, font);
    assert(cleared == screen.call(clear, font));
    assert(cleared.wf());
    lemma_render_shows_grid(cleared, console, font);
    let shown = cleared.draw_all(console.render_ops(), font);
    lemma_println_info_keeps_display(shown, console, init_message(), font);
    lemma_draw_all_concat(screen, prepare, console.render_ops(), font);
    lemma_draw_all_concat(
        screen,
        prepare + console.render_ops(),
        console.println_info_ops(init_message()),
        font,
    );
}

} // verus!
