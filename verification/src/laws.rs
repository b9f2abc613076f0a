//! What holds of every console, proved from the state machine.

use crate::console::{blank_row, lemma_write_char_wf, lemma_write_str_wf, Console};
use crate::graphic::{default_cell, ScreenChar, TEXT_BUFFER_HEIGHT, TEXT_BUFFER_WIDTH};
use vstd::prelude::*;

verus! {

/// No character of `text` is a newline.
pub open spec fn no_newline(text: Seq<char>) -> bool {
    forall|i: int| 0 <= i < text.len() ==> text[i] != '\n'
}

/// The number of new lines that writing `count` characters, none of them a
/// newline, starts when the cursor stands at `column`.
pub open spec fn wraps(column: nat, count: nat) -> int {
    if count == 0 {
        0
    } else {
        (column + count - 1) / (TEXT_BUFFER_WIDTH as int)
    }
}

/// The column of the cursor after writing `count` characters, none of them a
/// newline, from `column`.
pub open spec fn column_after(column: nat, count: nat) -> nat {
    if count == 0 {
        column
    } else {
        ((column + count - 1) % (TEXT_BUFFER_WIDTH as int) + 1) as nat
    }
}

/// The index in the text of the character that comes to stand at `row`,
/// `col` when `count` characters are written from `column`. An index below 0
/// or from `count` on means that none does.
pub open spec fn index_at(column: nat, count: nat, row: int, col: int) -> int {
    (row + wraps(column, count) - (TEXT_BUFFER_HEIGHT - 1)) * TEXT_BUFFER_WIDTH + col - column
}

/// The console after writing `text`, none of its characters a newline, given
/// cell by cell. A cell holds the character of the text that came to stand
/// there, in the colours of the console. Any other cell holds what stood
/// as many rows further down before as new lines were started, or the
/// default cell if the grid had no such row.
pub open spec fn laid_out(console: Console, text: Seq<char>) -> Console {
    let n: int = wraps(console.column, text.len());
    Console {
        rows: Seq::new(
            TEXT_BUFFER_HEIGHT as nat,
            |r: int|
                Seq::new(
                    TEXT_BUFFER_WIDTH as nat,
                    |c: int|
                        {
                            let i: int = index_at(console.column, text.len(), r, c);
                            if 0 <= i < text.len() {
                                console.pen(text[i])
                            } else if r + n < TEXT_BUFFER_HEIGHT {
                                console.rows[r + n][c]
                            } else {
                                default_cell()
                            }
                        },
                ),
        ),
        column: column_after(console.column, text.len()),
        ..console
    }
}

/// Writing a text without newlines lays its characters out from the cursor
/// on, row after row, each row filled to its end before the next is
/// started, and moves the rest of the grid up by the number of rows started.
pub proof fn lemma_write_str_layout(console: Console, text: Seq<char>)
    requires
        console.wf(),
        no_newline(text),
    ensures
        console.write_str(text) == laid_out(console, text),
    decreases text.len(),
{
    if text.len() == 0 {
        assert(console.rows =~~= laid_out(console, text).rows);
    } else {
        let head = text.drop_last();
        lemma_write_str_layout(console, head);
        lemma_write_str_wf(console, head);
        let mid = laid_out(console, head);
        let end = mid.write_char(text.last());
        assert(end.rows =~~= laid_out(console, text).rows);
    }
}

/// Writing never changes the colours that the next character gets.
pub proof fn lemma_write_str_keeps_colors(console: Console, text: Seq<char>)
    ensures
        console.write_str(text).bg_color == console.bg_color,
        console.write_str(text).fg_color == console.fg_color,
    decreases text.len(),
{
    if text.len() > 0 {
        lemma_write_str_keeps_colors(console, text.drop_last());
    }
}

/// Whatever is written, the cursor stays within the line or just past its
/// end, and the grid keeps its size.
pub proof fn lemma_cursor_in_range(console: Console, text: Seq<char>)
    requires
        console.wf(),
    ensures
        console.write_str(text).column <= TEXT_BUFFER_WIDTH,
        console.write_str(text).rows.len() == TEXT_BUFFER_HEIGHT,
{
    lemma_write_str_wf(console, text);
}

/// A character written on a full line starts exactly one new line before it
/// is placed: every row moves up by one and the character stands alone at
/// the start of the bottom row. On a line that is not full no line is
/// started: the character goes to the cursor and nothing else changes.
pub proof fn lemma_wrap_starts_one_line(console: Console, character: char)
    requires
        console.wf(),
        character != '\n',
    ensures
        console.column == TEXT_BUFFER_WIDTH ==> {
            let after = console.write_char(character);
            &&& after.column == 1
            &&& forall|r: int| 0 <= r < TEXT_BUFFER_HEIGHT - 1 ==> after.rows[r] == console.rows[r + 1]
            &&& after.rows[TEXT_BUFFER_HEIGHT - 1] == blank_row().update(0, console.pen(character))
        },
        console.column < TEXT_BUFFER_WIDTH ==> {
            let after = console.write_char(character);
            &&& after.column == console.column + 1
            &&& forall|r: int| 0 <= r < TEXT_BUFFER_HEIGHT - 1 ==> after.rows[r] == console.rows[r]
            &&& after.rows[TEXT_BUFFER_HEIGHT - 1] == console.rows[TEXT_BUFFER_HEIGHT - 1].update(
                console.column as int,
                console.pen(character),
            )
        },
{
}

/// A line as it stands in a row of the grid when it was written from column
/// 0 in the colours of `console`: its characters, then default cells.
pub open spec fn line_row(console: Console, line: Seq<char>) -> Seq<ScreenChar> {
    Seq::new(
        TEXT_BUFFER_WIDTH as nat,
        |c: int|
            if c < line.len() {
                console.pen(line[c])
            } else {
                default_cell()
            },
    )
}

/// A line that fits a row and holds no newline, written at the start of a
/// row, fills that row and starts no new line. One character more than fits
/// starts exactly one: the full row moves up and the character stands alone
/// on the bottom row.
pub proof fn lemma_line_fills_row(console: Console, line: Seq<char>)
    requires
        console.wf(),
        console.column == 0,
        no_newline(line),
        line.len() <= TEXT_BUFFER_WIDTH + 1,
    ensures
        line.len() <= TEXT_BUFFER_WIDTH ==> {
            let after = console.write_str(line);
            &&& after.column == line.len()
            &&& after.rows[TEXT_BUFFER_HEIGHT - 1] == line_row(console, line)
            &&& forall|r: int| 0 <= r < TEXT_BUFFER_HEIGHT - 1 ==> after.rows[r] == console.rows[r]
        },
        line.len() == TEXT_BUFFER_WIDTH + 1 ==> {
            let after = console.write_str(line);
            &&& after.column == 1
            &&& after.rows[TEXT_BUFFER_HEIGHT - 2] == line_row(console, line.take(TEXT_BUFFER_WIDTH as int))
            &&& after.rows[TEXT_BUFFER_HEIGHT - 1] == blank_row().update(0, console.pen(line.last()))
            &&& forall|r: int| 0 <= r < TEXT_BUFFER_HEIGHT - 2 ==> after.rows[r] == console.rows[r + 1]
        },
{
    lemma_write_str_layout(console, line);
    let after = laid_out(console, line);
    let last = TEXT_BUFFER_HEIGHT - 1;
    if line.len() <= TEXT_BUFFER_WIDTH {
        assert(after.rows[last] =~= line_row(console, line));
        assert forall|r: int| 0 <= r < last implies after.rows[r] == console.rows[r] by {
            assert(after.rows[r] =~= console.rows[r]);
        }
    } else {
        assert(after.rows[last - 1] =~= line_row(console, line.take(TEXT_BUFFER_WIDTH as int)));
        assert(after.rows[last] =~= blank_row().update(0, console.pen(line.last())));
        assert forall|r: int| 0 <= r < last - 1 implies after.rows[r] == console.rows[r + 1] by {
            assert(after.rows[r] =~= console.rows[r + 1]);
        }
    }
}

/// Each line fits a row and holds no newline.
pub open spec fn lines_fit(lines: Seq<Seq<char>>) -> bool {
    forall|j: int|
        0 <= j < lines.len() ==> (#[trigger] lines[j]).len() <= TEXT_BUFFER_WIDTH && no_newline(lines[j])
}

/// The console after each of `lines` has been written and ended by a
/// newline.
pub open spec fn write_lines(console: Console, lines: Seq<Seq<char>>) -> Console
    decreases lines.len(),
{
    if lines.len() == 0 {
        console
    } else {
        write_lines(console, lines.drop_last()).write_str(lines.last()).write_char('\n')
    }
}

/// After any number of lines, each ended by a newline, the grid holds the
/// latest of them and no more than it has rows for: the bottom row is blank
/// and ready for the next line, the row above it holds the last line, the
/// one above that the line before, and so on upwards. A row that no line
/// has reached yet holds what stood as many rows further down at the start
/// as lines were written. Lines older than the grid has rows are gone.
pub proof fn lemma_scroll_history(console: Console, lines: Seq<Seq<char>>)
    requires
        console.wf(),
        console.column == 0,
        lines_fit(lines),
    ensures
        write_lines(console, lines).wf(),
        write_lines(console, lines).column == 0,
        write_lines(console, lines).bg_color == console.bg_color,
        write_lines(console, lines).fg_color == console.fg_color,
        lines.len() > 0 ==> write_lines(console, lines).rows[TEXT_BUFFER_HEIGHT - 1] == blank_row(),
        forall|r: int|
            0 <= r < TEXT_BUFFER_HEIGHT - 1 ==> #[trigger] write_lines(console, lines).rows[r] == if r
                + lines.len() >= TEXT_BUFFER_HEIGHT - 1 {
                line_row(console, lines[r + lines.len() - (TEXT_BUFFER_HEIGHT - 1)])
            } else {
                console.rows[r + lines.len()]
            },
    decreases lines.len(),
{
    if lines.len() > 0 {
        let earlier = lines.drop_last();
        let line = lines.last();
        lemma_scroll_history(console, earlier);
        let start = write_lines(console, earlier);
        lemma_line_fills_row(start, line);
        let written = start.write_str(line);
        lemma_write_str_wf(start, line);
        lemma_write_char_wf(written, '\n');
        lemma_write_str_keeps_colors(start, line);
        let after = write_lines(console, lines);
        assert(after == written.new_line());
        assert(line_row(start, line) =~= line_row(console, line));
        assert forall|r: int| 0 <= r < TEXT_BUFFER_HEIGHT - 1 implies #[trigger] after.rows[r] == if r
            + lines.len() >= TEXT_BUFFER_HEIGHT - 1 {
            line_row(console, lines[r + lines.len() - (TEXT_BUFFER_HEIGHT - 1)])
        } else {
            console.rows[r + lines.len()]
        } by {
            assert(after.rows[r] == written.rows[r + 1]);
            if r + 1 < TEXT_BUFFER_HEIGHT - 1 {
                assert(written.rows[r + 1] == start.rows[r + 1]);
            }
        }
    }
}

/// While a line is being written the bottom row holds it: after any number
/// of finished lines, the characters of the line that was started last stand
/// on the bottom row and the finished lines stay where they were.
pub proof fn lemma_bottom_row_holds_current_line(
    console: Console,
    lines: Seq<Seq<char>>,
    current: Seq<char>,
)
    requires
        console.wf(),
        console.column == 0,
        lines_fit(lines),
        current.len() <= TEXT_BUFFER_WIDTH,
        no_newline(current),
    ensures
        write_lines(console, lines).write_str(current).rows[TEXT_BUFFER_HEIGHT - 1] == line_row(
            console,
            current,
        ),
        forall|r: int|
            0 <= r < TEXT_BUFFER_HEIGHT - 1 ==> write_lines(console, lines).write_str(current).rows[r]
                == write_lines(console, lines).rows[r],
{
    lemma_scroll_history(console, lines);
    let start = write_lines(console, lines);
    lemma_line_fills_row(start, current);
    assert(line_row(start, current) =~= line_row(console, current));
}

/// Every cell of the grid holds the default cell or one of `written`.
pub open spec fn default_or_among(console: Console, written: Set<ScreenChar>) -> bool {
    forall|r: int, c: int|
        0 <= r < TEXT_BUFFER_HEIGHT && 0 <= c < TEXT_BUFFER_WIDTH ==> #[trigger] console.rows[r][c]
            == default_cell() || written.contains(console.rows[r][c])
}

/// The cells that writing `text` on `console` stores: one for each of its
/// characters that is no newline, in the colours of the console.
pub open spec fn cells_of(console: Console, text: Seq<char>) -> Set<ScreenChar> {
    Set::new(
        |cell: ScreenChar|
            exists|i: int| 0 <= i < text.len() && text[i] != '\n' && cell == console.pen(#[trigger] text[i]),
    )
}

/// A cell that nothing was written to holds the default cell: if every cell
/// holds the default cell or one of `written`, then after writing `text`
/// every cell holds the default cell, one of `written`, or a cell that the
/// text stored.
pub proof fn lemma_default_fill(console: Console, text: Seq<char>, written: Set<ScreenChar>)
    requires
        console.wf(),
        default_or_among(console, written),
    ensures
        default_or_among(console.write_str(text), written.union(cells_of(console, text))),
    decreases text.len(),
{
    if text.len() > 0 {
        let head = text.drop_last();
        let last = text.last();
        lemma_default_fill(console, head, written);
        lemma_write_str_wf(console, head);
        lemma_write_str_keeps_colors(console, head);
        let mid = console.write_str(head);
        let after = mid.write_char(last);
        let before_set = written.union(cells_of(console, head));
        let after_set = written.union(cells_of(console, text));
        assert forall|cell: ScreenChar| before_set.contains(cell) implies after_set.contains(cell) by {
            if !written.contains(cell) {
                let i = choose|i: int|
                    0 <= i < head.len() && head[i] != '\n' && cell == console.pen(#[trigger] head[i]);
                assert(text[i] == head[i]);
            }
        }
        if last != '\n' {
            assert(text[text.len() - 1] == last);
            assert(after_set.contains(console.pen(last)));
        }
        assert forall|r: int, c: int|
            0 <= r < TEXT_BUFFER_HEIGHT && 0 <= c < TEXT_BUFFER_WIDTH implies #[trigger] after.rows[r][c]
            == default_cell() || after_set.contains(after.rows[r][c]) by {
            let bottom = TEXT_BUFFER_HEIGHT - 1;
            if last == '\n' || mid.column >= TEXT_BUFFER_WIDTH {
                if r < bottom {
                    assert(after.rows[r][c] == mid.rows[r + 1][c]);
                }
            } else {
                if r != bottom || c != mid.column {
                    assert(after.rows[r][c] == mid.rows[r][c]);
                }
            }
        }
    }
}

/// On a console on which nothing has been written every cell holds the
/// default cell, and after any text every cell holds the default cell or a
/// cell that the text stored.
pub proof fn lemma_fresh_default_fill(text: Seq<char>)
    ensures
        Console::fresh().wf(),
        forall|r: int, c: int|
            0 <= r < TEXT_BUFFER_HEIGHT && 0 <= c < TEXT_BUFFER_WIDTH ==> #[trigger] Console::fresh().rows[r][c]
                == default_cell(),
        default_or_among(Console::fresh().write_str(text), cells_of(Console::fresh(), text)),
{
    let fresh = Console::fresh();
    let nothing = Set::<ScreenChar>::empty();
    lemma_default_fill(fresh, text, nothing);
    assert(nothing.union(cells_of(fresh, text)) =~= cells_of(fresh, text));
}

/// The row in which character `i` of a text stands after the text has been
/// written from `column`. Below 0 the character has left the grid.
pub open spec fn row_of(column: nat, count: nat, i: int) -> int {
    TEXT_BUFFER_HEIGHT - 1 - wraps(column, count) + (column + i) / (TEXT_BUFFER_WIDTH as int)
}

/// The column in which character `i` of a text stands after the text has
/// been written from `column`.
pub open spec fn col_of(column: nat, i: int) -> int {
    (column + i) % (TEXT_BUFFER_WIDTH as int)
}

/// Colours set before a text colour the cells of that text and no others.
/// Setting the colours leaves the grid as it is. Each character of the text
/// that is still on the grid then stands in a cell of its own, in the colours
/// set; every other cell holds what the grid held before the text, moved up
/// by the rows that the text started, or the default cell. Setting other
/// colours afterwards changes no cell.
pub proof fn lemma_color_persistence(console: Console, bg: u8, fg: u8, text: Seq<char>)
    requires
        console.wf(),
        no_newline(text),
    ensures
        console.set_color(bg, fg).rows == console.rows,
        forall|i: int|
            #![trigger text[i]]
            0 <= i < text.len() && row_of(console.column, text.len(), i) >= 0 ==> {
                let row = row_of(console.column, text.len(), i);
                let col = col_of(console.column, i);
                &&& row < TEXT_BUFFER_HEIGHT
                &&& 0 <= col < TEXT_BUFFER_WIDTH
                &&& index_at(console.column, text.len(), row, col) == i
                &&& console.set_color(bg, fg).write_str(text).rows[row][col] == ScreenChar {
                    character: text[i],
                    bg_color: bg,
                    fg_color: fg,
                }
            },
        forall|r: int, c: int|
            #![trigger console.set_color(bg, fg).write_str(text).rows[r][c]]
            0 <= r < TEXT_BUFFER_HEIGHT && 0 <= c < TEXT_BUFFER_WIDTH && !(0 <= index_at(
                console.column,
                text.len(),
                r,
                c,
            ) < text.len()) ==> console.set_color(bg, fg).write_str(text).rows[r][c] == if r + wraps(
                console.column,
                text.len(),
            ) < TEXT_BUFFER_HEIGHT {
                console.rows[r + wraps(console.column, text.len())][c]
            } else {
                default_cell()
            },
        forall|other_bg: u8, other_fg: u8|
            #![trigger console.set_color(bg, fg).write_str(text).set_color(other_bg, other_fg)]
            console.set_color(bg, fg).write_str(text).set_color(other_bg, other_fg).rows
                == console.set_color(bg, fg).write_str(text).rows,
{
    lemma_write_str_layout(console.set_color(bg, fg), text);
}

} // verus!
