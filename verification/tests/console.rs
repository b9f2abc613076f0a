use osh1mc::graphic::{
    init_graphics, ScreenChar, TextWriter, DEFAULT_BG_COLOR, DEFAULT_FG_COLOR, FONT_HEIGHT, FONT_WIDTH,
    FRAME_BUFFER_HEIGHT, FRAME_BUFFER_WIDTH, OK_COLOR, TEXT_BUFFER_HEIGHT, TEXT_BUFFER_WIDTH,
};
use osh1mc::render::DrawCommand;

fn blank() -> ScreenChar {
    ScreenChar { character: ' ', bg_color: 0x00, fg_color: 0xff }
}

fn row_cells(writer: &TextWriter, row: usize) -> Vec<ScreenChar> {
    (0..TEXT_BUFFER_WIDTH).map(|col| writer.cell(row, col).unwrap()).collect()
}

fn row_text(writer: &TextWriter, row: usize) -> String {
    let text: String = row_cells(writer, row).iter().map(|cell| cell.character).collect();
    text.trim_end().to_string()
}

fn plain_row(text: &str) -> Vec<ScreenChar> {
    let mut cells = vec![blank(); TEXT_BUFFER_WIDTH];
    for (col, character) in text.chars().enumerate() {
        cells[col] = ScreenChar { character, bg_color: 0x00, fg_color: 0xff };
    }
    cells
}

#[test]
fn constants_describe_the_frame() {
    assert_eq!(FRAME_BUFFER_WIDTH, 320);
    assert_eq!(FRAME_BUFFER_HEIGHT, 240);
    assert_eq!(FONT_WIDTH, 8);
    assert_eq!(FONT_HEIGHT, 8);
    assert_eq!(TEXT_BUFFER_WIDTH, 40);
    assert_eq!(TEXT_BUFFER_HEIGHT, 30);
    assert_eq!(DEFAULT_BG_COLOR, 0x00);
    assert_eq!(DEFAULT_FG_COLOR, 0xff);
    assert_eq!(OK_COLOR, 0x10);
}

#[test]
fn default_cell_is_a_bright_space_on_black() {
    assert_eq!(ScreenChar::new(), ScreenChar { character: ' ', bg_color: 0x00, fg_color: 0xff });
}

#[test]
fn new_console_is_blank() {
    let writer = TextWriter::new();
    assert_eq!(writer.column_pos(), 0);
    assert_eq!(writer.colors(), (0x00, 0xff));
    for row in 0..TEXT_BUFFER_HEIGHT {
        for col in 0..TEXT_BUFFER_WIDTH {
            assert_eq!(writer.cell(row, col), Some(blank()));
        }
    }
}

#[test]
fn cell_off_the_grid_is_none() {
    let writer = TextWriter::new();
    assert_eq!(writer.cell(TEXT_BUFFER_HEIGHT, 0), None);
    assert_eq!(writer.cell(0, TEXT_BUFFER_WIDTH), None);
    assert_eq!(writer.cell(usize::MAX, usize::MAX), None);
    assert_eq!(writer.cell(TEXT_BUFFER_HEIGHT - 1, TEXT_BUFFER_WIDTH - 1), Some(blank()));
}

#[test]
fn write_char_stores_at_the_cursor_and_paints_that_cell() {
    let mut writer = TextWriter::new();
    let ops = writer.write_char('a');
    let cell = ScreenChar { character: 'a', bg_color: 0x00, fg_color: 0xff };
    assert_eq!(ops, vec![DrawCommand::PaintCell { row: 29, col: 0, cell }]);
    assert_eq!(writer.cell(29, 0), Some(cell));
    assert_eq!(writer.column_pos(), 1);
    let ops = writer.write_char('b');
    let cell = ScreenChar { character: 'b', bg_color: 0x00, fg_color: 0xff };
    assert_eq!(ops, vec![DrawCommand::PaintCell { row: 29, col: 1, cell }]);
    assert_eq!(writer.column_pos(), 2);
    assert_eq!(row_text(&writer, 29), "ab");
    for row in 0..29 {
        assert_eq!(row_cells(&writer, row), plain_row(""));
    }
}

#[test]
fn newline_stores_nothing_and_scrolls() {
    let mut writer = TextWriter::new();
    writer.write_string("top");
    let ops = writer.write_char('\n');
    assert_eq!(writer.column_pos(), 0);
    assert_eq!(row_cells(&writer, 29), plain_row(""));
    assert_eq!(row_cells(&writer, 28), plain_row("top"));
    for row in 0..28 {
        assert_eq!(row_cells(&writer, row), plain_row(""));
    }
    assert_eq!(ops.len(), 3 * TEXT_BUFFER_WIDTH + 1);
    for col in 0..TEXT_BUFFER_WIDTH {
        assert_eq!(ops[col], DrawCommand::PaintCell { row: 0, col, cell: blank() });
        assert_eq!(ops[41 + col], DrawCommand::PaintCell { row: 29, col, cell: blank() });
        assert_eq!(ops[81 + col], DrawCommand::PaintCell { row: 0, col, cell: blank() });
    }
    assert_eq!(ops[40], DrawCommand::ScrollUp);
}

#[test]
fn new_line_repaints_the_top_row_before_and_after_the_shift() {
    let mut writer = TextWriter::new();
    for line in 0..TEXT_BUFFER_HEIGHT {
        writer.write_string(&format!("{}", line % 10));
        if line + 1 < TEXT_BUFFER_HEIGHT {
            writer.write_char('\n');
        }
    }
    assert_eq!(row_text(&writer, 0), "0");
    assert_eq!(row_text(&writer, 1), "1");
    assert_eq!(row_text(&writer, 29), "9");
    let ops = writer.new_line();
    assert_eq!(ops.len(), 121);
    assert_eq!(ops[0], DrawCommand::PaintCell { row: 0, col: 0, cell: plain_row("0")[0] });
    assert_eq!(ops[40], DrawCommand::ScrollUp);
    assert_eq!(ops[41], DrawCommand::PaintCell { row: 29, col: 0, cell: blank() });
    assert_eq!(ops[81], DrawCommand::PaintCell { row: 0, col: 0, cell: plain_row("1")[0] });
    assert_eq!(row_text(&writer, 0), "1");
    assert_eq!(row_text(&writer, 28), "9");
    assert_eq!(row_text(&writer, 29), "");
    assert_eq!(writer.column_pos(), 0);
}

#[test]
fn cursor_stays_within_the_line() {
    let mut writer = TextWriter::new();
    for count in 1..=200 {
        writer.write_char('x');
        assert!(writer.column_pos() <= TEXT_BUFFER_WIDTH);
        assert!(writer.column_pos() >= 1);
        assert_eq!(writer.column_pos(), (count - 1) % TEXT_BUFFER_WIDTH + 1);
    }
}

#[test]
fn full_line_wraps_only_when_the_next_character_comes() {
    let mut writer = TextWriter::new();
    let line: String = (0..TEXT_BUFFER_WIDTH).map(|i| (b'a' + (i % 26) as u8) as char).collect();
    let ops = writer.write_string(&line);
    assert_eq!(ops.len(), TEXT_BUFFER_WIDTH);
    assert_eq!(writer.column_pos(), TEXT_BUFFER_WIDTH);
    assert_eq!(row_cells(&writer, 29), plain_row(&line));
    assert_eq!(row_cells(&writer, 28), plain_row(""));
    let ops = writer.write_char('!');
    assert_eq!(ops.len(), 121 + 1);
    assert_eq!(
        ops[121],
        DrawCommand::PaintCell {
            row: 29,
            col: 0,
            cell: ScreenChar { character: '!', bg_color: 0x00, fg_color: 0xff },
        }
    );
    assert_eq!(writer.column_pos(), 1);
    assert_eq!(row_cells(&writer, 28), plain_row(&line));
    assert_eq!(row_cells(&writer, 29), plain_row("!"));
    assert_eq!(row_cells(&writer, 27), plain_row(""));
}

#[test]
fn line_of_grid_width_and_one_more_character_make_two_rows() {
    let mut writer = TextWriter::new();
    let line = "0123456789012345678901234567890123456789";
    assert_eq!(line.chars().count(), TEXT_BUFFER_WIDTH);
    let mut text = String::from(line);
    text.push('Z');
    writer.write_string(&text);
    assert_eq!(row_cells(&writer, 28), plain_row(line));
    assert_eq!(row_cells(&writer, 29), plain_row("Z"));
    for row in 0..28 {
        assert_eq!(row_cells(&writer, row), plain_row(""));
    }
    assert_eq!(writer.column_pos(), 1);
}

#[test]
fn many_lines_leave_the_last_line_above_the_blank_bottom_row() {
    let mut writer = TextWriter::new();
    for _ in 0..20 {
        writer.write_string("abcdefg\n123\n");
    }
    writer.write_string("It did not crash!\n");
    assert_eq!(row_cells(&writer, 29), plain_row(""));
    assert_eq!(row_cells(&writer, 28), plain_row("It did not crash!"));
    let bottom_most = (0..TEXT_BUFFER_HEIGHT).rev().find(|&row| !row_text(&writer, row).is_empty());
    assert_eq!(bottom_most, Some(28));
    assert_eq!(row_text(&writer, 28), "It did not crash!");
    for back in 0..28 {
        let expected = if back % 2 == 0 { "123" } else { "abcdefg" };
        assert_eq!(row_cells(&writer, 27 - back), plain_row(expected));
    }
    for row in 0..TEXT_BUFFER_HEIGHT {
        for col in 0..TEXT_BUFFER_WIDTH {
            assert!(writer.cell(row, col).is_some());
        }
    }
    assert_eq!(writer.column_pos(), 0);
}

#[test]
fn grid_keeps_only_the_latest_lines() {
    let mut writer = TextWriter::new();
    for line in 0..100 {
        writer.write_string(&format!("line {}", line));
        assert_eq!(row_text(&writer, 29), format!("line {}", line));
        writer.write_char('\n');
        assert_eq!(row_text(&writer, 29), "");
        for back in 0..29 {
            let expected = if back <= line { format!("line {}", line - back) } else { String::new() };
            assert_eq!(row_text(&writer, 28 - back), expected);
        }
    }
    writer.write_string("current");
    assert_eq!(row_text(&writer, 29), "current");
    assert_eq!(row_text(&writer, 28), "line 99");
    assert_eq!(row_text(&writer, 0), "line 71");
}

#[test]
fn every_cell_is_default_or_written() {
    let mut writer = TextWriter::new();
    let text = "one\ntwo words\n\nthree";
    writer.write_string(text);
    for row in 0..TEXT_BUFFER_HEIGHT {
        for col in 0..TEXT_BUFFER_WIDTH {
            let cell = writer.cell(row, col).unwrap();
            let written = text.chars().any(|character| {
                character != '\n' && cell == ScreenChar { character, bg_color: 0x00, fg_color: 0xff }
            });
            assert!(cell == blank() || written);
        }
    }
    assert_eq!(row_cells(&writer, 26), plain_row("one"));
    assert_eq!(row_cells(&writer, 27), plain_row("two words"));
    assert_eq!(row_cells(&writer, 28), plain_row(""));
    assert_eq!(row_cells(&writer, 29), plain_row("three"));
}

#[test]
fn set_color_colors_what_is_written_next_and_nothing_else() {
    let mut writer = TextWriter::new();
    writer.write_string("ab");
    writer.set_color(0x03, 0x16);
    assert_eq!(writer.colors(), (0x03, 0x16));
    assert_eq!(row_cells(&writer, 29), plain_row("ab"));
    writer.write_string("cde");
    writer.set_color(0x00, 0xff);
    assert_eq!(writer.colors(), (0x00, 0xff));
    let mut expected = plain_row("abcde");
    for col in 2..5 {
        expected[col].bg_color = 0x03;
        expected[col].fg_color = 0x16;
    }
    assert_eq!(row_cells(&writer, 29), expected);
    writer.write_string("f");
    expected[5] = ScreenChar { character: 'f', bg_color: 0x00, fg_color: 0xff };
    assert_eq!(row_cells(&writer, 29), expected);
    for row in 0..29 {
        assert_eq!(row_cells(&writer, row), plain_row(""));
    }
}

#[test]
fn colored_text_keeps_its_colors_across_a_wrap() {
    let mut writer = TextWriter::new();
    writer.write_string("0123456789012345678901234567890123456");
    writer.set_color(0x01, 0x02);
    writer.write_string("abcde");
    writer.set_color(0x09, 0x0a);
    let colored = |character: char| ScreenChar { character, bg_color: 0x01, fg_color: 0x02 };
    assert_eq!(writer.cell(28, 37), Some(colored('a')));
    assert_eq!(writer.cell(28, 38), Some(colored('b')));
    assert_eq!(writer.cell(28, 39), Some(colored('c')));
    assert_eq!(writer.cell(29, 0), Some(colored('d')));
    assert_eq!(writer.cell(29, 1), Some(colored('e')));
    let mut count = 0;
    for row in 0..TEXT_BUFFER_HEIGHT {
        for col in 0..TEXT_BUFFER_WIDTH {
            let cell = writer.cell(row, col).unwrap();
            if cell.bg_color == 0x01 && cell.fg_color == 0x02 {
                count += 1;
            }
        }
    }
    assert_eq!(count, 5);
    assert_eq!(writer.column_pos(), 2);
}

#[test]
fn write_string_draws_what_its_characters_draw() {
    let mut one = TextWriter::new();
    let mut other = TextWriter::new();
    let text = "ab\ncd";
    let ops = one.write_string(text);
    let mut expected = Vec::new();
    for character in text.chars() {
        expected.extend(other.write_char(character));
    }
    assert_eq!(ops, expected);
    assert_eq!(ops.len(), 2 + 121 + 2);
    for row in 0..TEXT_BUFFER_HEIGHT {
        assert_eq!(row_cells(&one, row), row_cells(&other, row));
    }
    assert_eq!(one.write_string(""), vec![]);
}

#[test]
fn println_ends_the_line() {
    let mut writer = TextWriter::new();
    let ops = writer.println("hello");
    assert_eq!(ops.len(), 5 + 121);
    assert_eq!(row_cells(&writer, 28), plain_row("hello"));
    assert_eq!(row_cells(&writer, 29), plain_row(""));
    assert_eq!(writer.column_pos(), 0);
}

#[test]
fn println_info_writes_a_tagged_line() {
    let mut writer = TextWriter::new();
    writer.set_color(0x05, 0x06);
    let ops = writer.println_info("ready");
    assert_eq!(ops.len(), 1 + 2 + 2 + 5 + 121);
    let mut expected = plain_row("[ok] ready");
    expected[0].bg_color = 0x05;
    expected[0].fg_color = 0x06;
    expected[1].fg_color = 0x10;
    expected[2].fg_color = 0x10;
    assert_eq!(row_cells(&writer, 28), expected);
    assert_eq!(row_cells(&writer, 29), plain_row(""));
    assert_eq!(writer.colors(), (0x00, 0xff));
    assert_eq!(writer.column_pos(), 0);
}

#[test]
fn render_text_buffer_paints_every_cell_from_the_top() {
    let mut writer = TextWriter::new();
    writer.write_string("first\nsecond");
    let ops = writer.render_text_buffer();
    assert_eq!(ops.len(), TEXT_BUFFER_HEIGHT * TEXT_BUFFER_WIDTH);
    for row in 0..TEXT_BUFFER_HEIGHT {
        for col in 0..TEXT_BUFFER_WIDTH {
            let cell = writer.cell(row, col).unwrap();
            assert_eq!(ops[row * TEXT_BUFFER_WIDTH + col], DrawCommand::PaintCell { row, col, cell });
        }
    }
    assert_eq!(
        ops[28 * TEXT_BUFFER_WIDTH],
        DrawCommand::PaintCell {
            row: 28,
            col: 0,
            cell: ScreenChar { character: 'f', bg_color: 0x00, fg_color: 0xff },
        }
    );
}

#[test]
fn render_text_buffer_changes_nothing_and_repeats_itself() {
    let mut writer = TextWriter::new();
    writer.set_color(0x02, 0x07);
    writer.write_string("some text\nmore");
    let before: Vec<Vec<ScreenChar>> = (0..TEXT_BUFFER_HEIGHT).map(|row| row_cells(&writer, row)).collect();
    let first = writer.render_text_buffer();
    let second = writer.render_text_buffer();
    assert_eq!(first, second);
    let after: Vec<Vec<ScreenChar>> = (0..TEXT_BUFFER_HEIGHT).map(|row| row_cells(&writer, row)).collect();
    assert_eq!(before, after);
    assert_eq!(writer.column_pos(), 4);
    assert_eq!(writer.colors(), (0x02, 0x07));
}

#[test]
fn render_row_and_cell_count_lines_from_the_bottom() {
    let mut writer = TextWriter::new();
    writer.write_string("xy");
    let x = ScreenChar { character: 'x', bg_color: 0x00, fg_color: 0xff };
    let y = ScreenChar { character: 'y', bg_color: 0x00, fg_color: 0xff };
    assert_eq!(writer.render_text_buffer_col(0, 0), DrawCommand::PaintCell { row: 29, col: 0, cell: x });
    assert_eq!(writer.render_text_buffer_col(0, 1), DrawCommand::PaintCell { row: 29, col: 1, cell: y });
    assert_eq!(
        writer.render_text_buffer_col(1, 0),
        DrawCommand::PaintCell { row: 28, col: 0, cell: blank() }
    );
    assert_eq!(
        writer.render_text_buffer_col(29, 39),
        DrawCommand::PaintCell { row: 0, col: 39, cell: blank() }
    );
    let ops = writer.render_text_buffer_row(0);
    assert_eq!(ops.len(), TEXT_BUFFER_WIDTH);
    assert_eq!(ops[0], DrawCommand::PaintCell { row: 29, col: 0, cell: x });
    assert_eq!(ops[1], DrawCommand::PaintCell { row: 29, col: 1, cell: y });
    for col in 2..TEXT_BUFFER_WIDTH {
        assert_eq!(ops[col], DrawCommand::PaintCell { row: 29, col, cell: blank() });
    }
    let ops = writer.render_text_buffer_row(29);
    for col in 0..TEXT_BUFFER_WIDTH {
        assert_eq!(ops[col], DrawCommand::PaintCell { row: 0, col, cell: blank() });
    }
    for row in 0..TEXT_BUFFER_HEIGHT {
        let ops = writer.render_text_buffer_row(row);
        for col in 0..TEXT_BUFFER_WIDTH {
            let cell = writer.cell(29 - row, col).unwrap();
            assert_eq!(ops[col], DrawCommand::PaintCell { row: 29 - row, col, cell });
            assert_eq!(writer.render_text_buffer_col(row, col), ops[col]);
        }
    }
}

#[test]
fn init_graphics_sets_the_mode_clears_paints_and_reports() {
    let mut writer = TextWriter::new();
    let ops = init_graphics(&mut writer);
    assert_eq!(ops[0], DrawCommand::SetMode);
    assert_eq!(ops[1], DrawCommand::ClearScreen { color: 0x00 });
    for row in 0..TEXT_BUFFER_HEIGHT {
        for col in 0..TEXT_BUFFER_WIDTH {
            assert_eq!(
                ops[2 + row * TEXT_BUFFER_WIDTH + col],
                DrawCommand::PaintCell { row, col, cell: blank() }
            );
        }
    }
    let message = "VGA Initialized.";
    assert_eq!(ops.len(), 2 + 1200 + 5 + message.len() + 121);
    let mut expected = plain_row("[ok] VGA Initialized.");
    expected[1].fg_color = 0x10;
    expected[2].fg_color = 0x10;
    assert_eq!(row_cells(&writer, 28), expected);
    assert_eq!(row_cells(&writer, 29), plain_row(""));
    assert_eq!(writer.colors(), (0x00, 0xff));
    assert_eq!(writer.column_pos(), 0);
}

#[test]
fn every_command_fits_the_grid() {
    let mut writer = TextWriter::new();
    let mut ops = init_graphics(&mut writer);
    ops.extend(writer.write_string("a long line that will wrap around the right edge of the grid\n\n"));
    ops.extend(writer.new_line());
    ops.extend(writer.render_text_buffer());
    for op in &ops {
        assert!(op.fits());
    }
}
