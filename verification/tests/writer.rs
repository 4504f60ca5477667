use if_os::vga_buffer::{Buffer, ColorCode, ScreenChar, Writer, BUFFER_HEIGHT, BUFFER_WIDTH};

const YELLOW_ON_BLACK: ColorCode = ColorCode(0x0e);
const LAST: usize = BUFFER_HEIGHT - 1;

fn cell(glyph: u8, code: u8) -> ScreenChar {
    ScreenChar { ascii_character: glyph, color_code: ColorCode(code) }
}

fn yellow(glyph: u8) -> ScreenChar {
    ScreenChar { ascii_character: glyph, color_code: YELLOW_ON_BLACK }
}

/// What the cell at (`row`, `col`) of a patterned screen holds: no two cells
/// alike, and none in the writer's colors.
fn pattern(row: usize, col: usize) -> ScreenChar {
    cell(b'A' + row as u8, 0x80 + col as u8)
}

fn patterned_writer() -> Writer {
    let mut buffer = Buffer::new(cell(0, 0));
    for row in 0..BUFFER_HEIGHT {
        for col in 0..BUFFER_WIDTH {
            buffer.write(row, col, pattern(row, col));
        }
    }
    Writer::new(Box::leak(Box::new(buffer)))
}

fn snapshot(writer: &Writer) -> Vec<Vec<ScreenChar>> {
    (0..BUFFER_HEIGHT)
        .map(|row| (0..BUFFER_WIDTH).map(|col| writer.char_at(row, col)).collect())
        .collect()
}

fn pattern_row(row: usize) -> Vec<ScreenChar> {
    (0..BUFFER_WIDTH).map(|col| pattern(row, col)).collect()
}

fn blank_row() -> Vec<ScreenChar> {
    vec![yellow(b' '); BUFFER_WIDTH]
}

#[test]
fn a_new_writer_starts_at_column_0_in_yellow_on_black() {
    let writer = patterned_writer();
    assert_eq!(writer.column_position(), 0);
    assert_eq!(writer.color_code(), YELLOW_ON_BLACK);
}

#[test]
fn a_new_writer_leaves_the_screen_as_it_was() {
    let writer = patterned_writer();
    for row in 0..BUFFER_HEIGHT {
        assert_eq!(snapshot(&writer)[row], pattern_row(row));
    }
}

#[test]
fn every_printable_byte_lands_at_the_cursor() {
    for byte in 0x20u8..=0x7e {
        for start in [0usize, 1, 40, 79] {
            let mut writer = patterned_writer();
            for _ in 0..start {
                writer.write_byte(b'-');
            }
            let before = snapshot(&writer);
            writer.write_byte(byte);
            assert_eq!(writer.char_at(LAST, start), yellow(byte));
            assert_eq!(writer.column_position(), start + 1);
            let after = snapshot(&writer);
            for row in 0..BUFFER_HEIGHT {
                for col in 0..BUFFER_WIDTH {
                    if (row, col) != (LAST, start) {
                        assert_eq!(after[row][col], before[row][col]);
                    }
                }
            }
        }
    }
}

#[test]
fn write_byte_writes_any_other_byte_as_it_is() {
    let mut writer = patterned_writer();
    writer.write_byte(0x00);
    writer.write_byte(0x7f);
    writer.write_byte(0xff);
    assert_eq!(writer.char_at(LAST, 0), yellow(0x00));
    assert_eq!(writer.char_at(LAST, 1), yellow(0x7f));
    assert_eq!(writer.char_at(LAST, 2), yellow(0xff));
    assert_eq!(writer.column_position(), 3);
}

#[test]
fn write_byte_newline_scrolls() {
    let mut writer = patterned_writer();
    writer.write_byte(b'x');
    writer.write_byte(b'\n');
    let after = snapshot(&writer);
    for row in 1..LAST {
        assert_eq!(after[row - 1], pattern_row(row));
    }
    let mut moved = pattern_row(LAST);
    moved[0] = yellow(b'x');
    assert_eq!(after[LAST - 1], moved);
    assert_eq!(after[LAST], blank_row());
    assert_eq!(writer.column_position(), 0);
}

#[test]
fn unprintable_bytes_of_a_text_show_the_placeholder() {
    let mut writer = patterned_writer();
    writer.write_string("\t\r\u{0}\u{1f}\u{7f}");
    for col in 0..5 {
        assert_eq!(writer.char_at(LAST, col), yellow(0xfe));
    }
    assert_eq!(writer.column_position(), 5);
    assert_eq!(writer.char_at(LAST, 5), pattern(LAST, 5));
}

#[test]
fn each_byte_of_a_wide_character_shows_the_placeholder() {
    let mut writer = patterned_writer();
    writer.write_string("a\u{e9}b\u{20ac}c");
    let expected = [b'a', 0xfe, 0xfe, b'b', 0xfe, 0xfe, 0xfe, b'c'];
    for (col, glyph) in expected.iter().enumerate() {
        assert_eq!(writer.char_at(LAST, col), yellow(*glyph));
    }
    assert_eq!(writer.column_position(), 8);
}

#[test]
fn the_ends_of_the_printable_range_are_written_as_they_are() {
    let mut writer = patterned_writer();
    writer.write_string(" ~");
    assert_eq!(writer.char_at(LAST, 0), yellow(0x20));
    assert_eq!(writer.char_at(LAST, 1), yellow(0x7e));
}

#[test]
fn hello_world_fills_the_first_12_cells_of_the_last_row() {
    let mut writer = patterned_writer();
    writer.write_string("Hello world!");
    for (col, glyph) in "Hello world!".bytes().enumerate() {
        assert_eq!(writer.char_at(LAST, col), yellow(glyph));
    }
    assert_eq!(writer.column_position(), 12);
    assert_eq!(writer.char_at(LAST, 12), pattern(LAST, 12));
    for row in 0..LAST {
        assert_eq!(snapshot(&writer)[row], pattern_row(row));
    }
}

#[test]
fn a_full_row_does_not_scroll_until_the_next_byte() {
    let mut writer = patterned_writer();
    let line: String = (0..BUFFER_WIDTH).map(|i| (b'0' + (i % 10) as u8) as char).collect();
    writer.write_string(&line);
    assert_eq!(writer.column_position(), BUFFER_WIDTH);
    let full: Vec<ScreenChar> = line.bytes().map(yellow).collect();
    let filled = snapshot(&writer);
    assert_eq!(filled[LAST], full);
    for row in 0..LAST {
        assert_eq!(filled[row], pattern_row(row));
    }

    writer.write_byte(b'#');
    let wrapped = snapshot(&writer);
    assert_eq!(writer.column_position(), 1);
    assert_eq!(wrapped[LAST][0], yellow(b'#'));
    assert_eq!(wrapped[LAST - 1], full);
    assert_eq!(wrapped[LAST - 2], pattern_row(LAST - 1));
}

#[test]
fn an_overlong_line_shows_only_its_last_character_on_the_last_row() {
    let mut writer = patterned_writer();
    let line: String = (0..BUFFER_WIDTH + 1).map(|i| (b'a' + (i % 26) as u8) as char).collect();
    writer.write_string(&line);
    let after = snapshot(&writer);

    let mut last = blank_row();
    last[0] = yellow(line.as_bytes()[BUFFER_WIDTH]);
    assert_eq!(after[LAST], last);
    let first: Vec<ScreenChar> = line.bytes().take(BUFFER_WIDTH).map(yellow).collect();
    assert_eq!(after[LAST - 1], first);
    for row in 1..LAST {
        assert_eq!(after[row - 1], pattern_row(row));
    }
    assert_eq!(writer.column_position(), 1);
}

#[test]
fn a_newline_after_a_full_row_scrolls_once() {
    let mut writer = patterned_writer();
    let line = "=".repeat(BUFFER_WIDTH);
    writer.write_string(&line);
    writer.write_string("\n");
    let after = snapshot(&writer);
    assert_eq!(after[LAST], blank_row());
    assert_eq!(after[LAST - 1], vec![yellow(b'='); BUFFER_WIDTH]);
    assert_eq!(after[LAST - 2], pattern_row(LAST - 1));
    assert_eq!(writer.column_position(), 0);
}

#[test]
fn new_line_moves_every_row_up_and_blanks_the_last() {
    let mut writer = patterned_writer();
    writer.write_string("abc");
    let before = snapshot(&writer);
    writer.new_line();
    let after = snapshot(&writer);
    for row in 1..BUFFER_HEIGHT {
        assert_eq!(after[row - 1], before[row]);
    }
    assert_eq!(after[LAST], blank_row());
    assert_eq!(writer.column_position(), 0);
    assert_eq!(writer.color_code(), YELLOW_ON_BLACK);
}

#[test]
fn twenty_five_newlines_blank_the_whole_screen() {
    let mut writer = patterned_writer();
    for _ in 0..BUFFER_HEIGHT {
        writer.new_line();
    }
    assert_eq!(snapshot(&writer), vec![blank_row(); BUFFER_HEIGHT]);
}

#[test]
fn clean_row_blanks_one_row_in_the_active_colors() {
    for row in [0usize, 1, 12, LAST] {
        let mut writer = patterned_writer();
        writer.write_string("abc");
        let before = snapshot(&writer);
        writer.clean_row(row);
        let after = snapshot(&writer);
        for other in 0..BUFFER_HEIGHT {
            if other == row {
                assert_eq!(after[other], blank_row());
            } else {
                assert_eq!(after[other], before[other]);
            }
        }
        assert_eq!(writer.column_position(), 3);
    }
}

#[test]
fn clean_row_twice_is_clean_row_once() {
    for row in 0..BUFFER_HEIGHT {
        let mut writer = patterned_writer();
        writer.clean_row(row);
        let once = snapshot(&writer);
        writer.clean_row(row);
        assert_eq!(snapshot(&writer), once);
        assert_eq!(writer.column_position(), 0);
    }
}

#[test]
fn a_text_with_newlines_is_laid_out_line_by_line() {
    let mut writer = patterned_writer();
    writer.write_string("one\ntwo\nthree");
    let after = snapshot(&writer);
    let line = |text: &str| {
        let mut row = blank_row();
        for (col, glyph) in text.bytes().enumerate() {
            row[col] = yellow(glyph);
        }
        row
    };
    let mut first = pattern_row(LAST);
    for (col, glyph) in "one".bytes().enumerate() {
        first[col] = yellow(glyph);
    }
    assert_eq!(after[LAST - 2], first);
    assert_eq!(after[LAST - 1], line("two"));
    assert_eq!(after[LAST], line("three"));
    assert_eq!(after[LAST - 3], pattern_row(LAST - 1));
    assert_eq!(writer.column_position(), 5);
}

#[test]
fn the_empty_text_changes_nothing() {
    let mut writer = patterned_writer();
    writer.write_string("ab");
    let before = snapshot(&writer);
    writer.write_string("");
    assert_eq!(snapshot(&writer), before);
    assert_eq!(writer.column_position(), 2);
}

#[test]
fn two_texts_in_a_row_are_their_concatenation() {
    let mut split = patterned_writer();
    let mut whole = patterned_writer();
    let first = "x".repeat(70) + "\nab\u{fc}";
    let second = "y".repeat(90) + "\n!";
    split.write_string(&first);
    split.write_string(&second);
    whole.write_string(&(first + &second));
    assert_eq!(snapshot(&split), snapshot(&whole));
    assert_eq!(split.column_position(), whole.column_position());
}

#[test]
fn write_str_writes_the_text_and_succeeds() {
    let mut writer = patterned_writer();
    assert!(writer.write_str("ok\u{7f}").is_ok());
    assert_eq!(writer.char_at(LAST, 0), yellow(b'o'));
    assert_eq!(writer.char_at(LAST, 1), yellow(b'k'));
    assert_eq!(writer.char_at(LAST, 2), yellow(0xfe));
    assert_eq!(writer.column_position(), 3);
}

#[test]
fn the_cursor_never_passes_the_width() {
    let mut writer = patterned_writer();
    for i in 0..1000usize {
        if i % 97 == 0 {
            writer.write_byte(b'\n');
        } else {
            writer.write_byte(b'a' + (i % 26) as u8);
        }
        assert!(writer.column_position() <= BUFFER_WIDTH);
    }
}
