//! The cursor-tracking writer: it owns the text buffer and turns bytes into
//! cells, wrapping and scrolling as the last row fills.

use vstd::prelude::*;
use vstd::string::StringSliceAdditionalSpecFns;
use super::color::{Color, ColorCode};
use super::screen::{Screen, BLANK, NEWLINE, PLACEHOLDER};
use super::surface::{full_grid, Buffer, Rows, ScreenChar, BUFFER_HEIGHT, BUFFER_WIDTH};

verus! {

/// `core::fmt::Error`, the error of a formatting sink. It carries nothing.
#[verifier::external_type_specification]
#[verifier::external_body]
pub struct ExFmtError(core::fmt::Error);

/// The grid in the middle of a scroll: the first `rows_done` rows hold what
/// stood one row below them, and so do the first `cols_done` cells of the row
/// after these.
spec fn moved_up(rows: Rows, rows_done: int, cols_done: int) -> Rows {
    Seq::new(
        BUFFER_HEIGHT as nat,
        |row: int|
            Seq::new(
                BUFFER_WIDTH as nat,
                |col: int|
                    if row < rows_done || (row == rows_done && col < cols_done) {
                        rows[row + 1][col]
                    } else {
                        rows[row][col]
                    },
            ),
    )
}

/// Writes text into the last row of a text buffer and scrolls the rows above.
pub struct Writer {
    column_position: usize,
    color_code: ColorCode,
    buffer: &'static mut Buffer,
}

impl Writer {
    #[verifier::type_invariant]
    spec fn cursor_in_row(self) -> bool {
        self.column_position <= BUFFER_WIDTH
    }

    /// The console as the writer holds it.
    pub closed spec fn view(&self) -> Screen {
        Screen {
            column: self.column_position as nat,
            color: self.color_code,
            rows: (*self.buffer)@,
        }
    }

    /// A writer over `buffer`, with the cursor at column 0 and the default
    /// colors, yellow on black. The cells stay as `buffer` holds them.
    pub fn new(buffer: &'static mut Buffer) -> (writer: Writer)
        ensures
            writer@ == (Screen {
                column: 0,
                color: ColorCode(ColorCode::encode(Color::Yellow, Color::Black)),
                rows: old(buffer)@,
            }),
            writer@.wf(),
    {
        proof {
            buffer.lemma_full_grid();
        }
        Writer {
            column_position: 0,
            color_code: ColorCode::new(Color::Yellow, Color::Black),
            buffer,
        }
    }

    /// Writes the bytes of `s` in order. A printable byte or a newline is
    /// written as it is, any other byte as the placeholder glyph.
    pub fn write_string(&mut self, s: &str)
        ensures
            final(self)@ == old(self)@.write_string(s.spec_bytes()),
            final(self)@.wf(),
    {
        proof {
            use_type_invariant(&*self);
            self.buffer.lemma_full_grid();
        }
        let bytes = s.as_bytes();
        for i in 0..bytes.len()
            invariant
                bytes@ == s.spec_bytes(),
                self@ == old(self)@.write_string(bytes@.take(i as int)),
                self@.wf(),
        {
            let byte = bytes[i];
            assert(bytes@.take(i + 1).drop_last() == bytes@.take(i as int));
            match byte {
                0x20..=0x7e | NEWLINE => self.write_byte(byte),
                _ => self.write_byte(PLACEHOLDER),
            }
        }
        assert(bytes@.take(bytes@.len() as int) == bytes@);
    }

    /// Writes one byte. A newline scrolls. Any other byte is put into the last
    /// row at the cursor, in the active colors, after a scroll where that row
    /// is full, and the cursor moves one column on.
    pub fn write_byte(&mut self, byte: u8)
        ensures
            final(self)@ == old(self)@.write_byte(byte),
            final(self)@.wf(),
    {
        match byte {
            NEWLINE => self.new_line(),
            byte => {
                proof {
                    use_type_invariant(&*self);
                }
                if self.column_position >= BUFFER_WIDTH {
                    self.new_line();
                }
                proof {
                    use_type_invariant(&*self);
                    self.buffer.lemma_full_grid();
                }

                let row = BUFFER_HEIGHT - 1;
                let col = self.column_position;

                let color_code = self.color_code;
                self.buffer.write(row, col, ScreenChar { ascii_character: byte, color_code });
                self.column_position += 1;
            },
        }
    }

    /// Writes `s` as `write_string` does, for use as a formatting sink. It
    /// never fails.
    pub fn write_str(&mut self, s: &str) -> (result: Result<(), core::fmt::Error>)
        ensures
            result is Ok,
            final(self)@ == old(self)@.write_string(s.spec_bytes()),
            final(self)@.wf(),
    {
        self.write_string(s);
        Ok(())
    }

    /// Scrolls by one line: every row but the first moves up by one, the last
    /// row is blanked in the active colors, and the cursor returns to column 0.
    pub fn new_line(&mut self)
        ensures
            final(self)@ == old(self)@.new_line(),
            final(self)@.wf(),
            forall|row: int|
                1 <= row < BUFFER_HEIGHT ==> final(self)@.rows[row - 1]
                    == #[trigger] old(self)@.rows[row],
            final(self)@.rows[BUFFER_HEIGHT - 1] == old(self)@.blank_row(),
            final(self)@.column == 0,
    {
        proof {
            use_type_invariant(&*self);
            self.buffer.lemma_full_grid();
        }
        assert(self@.rows =~~= moved_up(old(self)@.rows, 0, 0));
        for row in 1..BUFFER_HEIGHT
            invariant
                self@.column == old(self)@.column,
                self@.color == old(self)@.color,
                full_grid(old(self)@.rows),
                self@.rows == moved_up(old(self)@.rows, row - 1, 0),
        {
            for col in 0..BUFFER_WIDTH
                invariant
                    1 <= row < BUFFER_HEIGHT,
                    self@.column == old(self)@.column,
                    self@.color == old(self)@.color,
                    full_grid(old(self)@.rows),
                    self@.rows == moved_up(old(self)@.rows, row - 1, col as int),
            {
                proof {
                    use_type_invariant(&*self);
                }
                let character = self.buffer.read(row, col);
                self.buffer.write(row - 1, col, character);
                assert(self@.rows =~~= moved_up(old(self)@.rows, row - 1, col + 1));
            }
            assert(self@.rows =~~= moved_up(old(self)@.rows, row as int, 0));
        }
        self.clean_row(BUFFER_HEIGHT - 1);
        proof {
            use_type_invariant(&*self);
        }
        self.column_position = 0;
        assert(self@.rows =~~= old(self)@.new_line().rows);
    }

    /// Fills row `row` with blanks in the active colors.
    pub fn clean_row(&mut self, row: usize)
        requires
            row < BUFFER_HEIGHT,
        ensures
            final(self)@ == old(self)@.clean_row(row as int),
            final(self)@.wf(),
    {
        proof {
            use_type_invariant(&*self);
            self.buffer.lemma_full_grid();
        }
        let blank = ScreenChar { ascii_character: BLANK, color_code: self.color_code };
        for col in 0..BUFFER_WIDTH
            invariant
                row < BUFFER_HEIGHT,
                blank == old(self)@.glyph(BLANK),
                self@.column == old(self)@.column,
                self@.color == old(self)@.color,
                self@.rows.len() == BUFFER_HEIGHT,
                forall|r: int|
                    0 <= r < BUFFER_HEIGHT && r != row ==> self@.rows[r] == old(self)@.rows[r],
                self@.rows[row as int].len() == BUFFER_WIDTH,
                forall|c: int| 0 <= c < col ==> self@.rows[row as int][c] == blank,
        {
            proof {
                use_type_invariant(&*self);
            }
            self.buffer.write(row, col, blank);
        }
        assert(self@.rows =~~= old(self)@.clean_row(row as int).rows);
    }

    /// The column of the cursor, at most `BUFFER_WIDTH`.
    pub fn column_position(&self) -> (column: usize)
        ensures
            column == self@.column,
            self@.wf(),
    {
        proof {
            use_type_invariant(self);
            self.buffer.lemma_full_grid();
        }
        self.column_position
    }

    /// The active colors.
    pub fn color_code(&self) -> (color: ColorCode)
        ensures
            color == self@.color,
    {
        self.color_code
    }

    /// The cell on the screen at (`row`, `col`), by one volatile read.
    pub fn char_at(&self, row: usize, col: usize) -> (cell: ScreenChar)
        requires
            row < BUFFER_HEIGHT,
            col < BUFFER_WIDTH,
        ensures
            cell == self@.rows[row as int][col as int],
    {
        self.buffer.read(row, col)
    }
}

} // verus!
