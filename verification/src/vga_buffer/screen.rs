//! The mathematical model of the console: what is on the screen, where the
//! cursor stands, and how each operation of the writer changes both.

use vstd::prelude::*;
use super::color::ColorCode;
use super::surface::{
    full_grid, uniform_row, with_cell, Rows, ScreenChar, BUFFER_HEIGHT, BUFFER_WIDTH,
};

verus! {

/// The newline control byte.
pub const NEWLINE: u8 = 0x0a;

/// The glyph of an empty cell.
pub const BLANK: u8 = 0x20;

/// The glyph shown in place of a byte that cannot be printed.
pub const PLACEHOLDER: u8 = 0xfe;

/// The printable range of ASCII.
pub open spec fn is_printable(byte: u8) -> bool {
    0x20 <= byte <= 0x7e
}

/// The byte that is written for `byte` of a text: itself where it is printable
/// or a newline, the placeholder otherwise.
pub open spec fn shown(byte: u8) -> u8 {
    if is_printable(byte) || byte == NEWLINE {
        byte
    } else {
        PLACEHOLDER
    }
}

/// The state of the console: the cursor's column in the last row, the active
/// colors, and the cells of the screen.
pub struct Screen {
    pub column: nat,
    pub color: ColorCode,
    pub rows: Rows,
}

impl Screen {
    /// The cursor is within `0..=BUFFER_WIDTH` and the grid has its full shape.
    pub open spec fn wf(self) -> bool {
        &&& self.column <= BUFFER_WIDTH
        &&& full_grid(self.rows)
    }

    /// The cell that `byte` is shown as in the active colors.
    pub open spec fn glyph(self, byte: u8) -> ScreenChar {
        ScreenChar { ascii_character: byte, color_code: self.color }
    }

    /// A row of blanks in the active colors.
    pub open spec fn blank_row(self) -> Seq<ScreenChar> {
        uniform_row(self.glyph(BLANK))
    }

    /// Row `row` filled with blanks in the active colors.
    pub open spec fn clean_row(self, row: int) -> Screen {
        Screen { rows: self.rows.update(row, self.blank_row()), ..self }
    }

    /// One scroll: the top row is discarded, every other row moves up by one,
    /// a blank row appears at the bottom, and the cursor returns to column 0.
    pub open spec fn new_line(self) -> Screen {
        Screen {
            column: 0,
            rows: self.rows.subrange(1, BUFFER_HEIGHT as int).push(self.blank_row()),
            ..self
        }
    }

    /// Whether writing `byte` starts a new line: it is a newline, or the last
    /// row is full.
    pub open spec fn scrolls_on(self, byte: u8) -> bool {
        byte == NEWLINE || self.column >= BUFFER_WIDTH
    }

    /// `byte` placed at the cursor, in the last row, and the cursor advanced.
    pub open spec fn place(self, byte: u8) -> Screen {
        Screen {
            column: self.column + 1,
            rows: with_cell(self.rows, BUFFER_HEIGHT - 1, self.column as int, self.glyph(byte)),
            ..self
        }
    }

    /// The console after `byte` is written: a scroll first where `byte` starts
    /// a new line, then, unless `byte` is a newline, its glyph placed at the
    /// cursor.
    pub open spec fn write_byte(self, byte: u8) -> Screen {
        let start = if self.scrolls_on(byte) {
            self.new_line()
        } else {
            self
        };
        if byte == NEWLINE {
            start
        } else {
            start.place(byte)
        }
    }

    /// The console after the bytes of a text are written in order, each as
    /// `shown` gives it.
    pub open spec fn write_string(self, bytes: Seq<u8>) -> Screen
        decreases bytes.len(),
    {
        if bytes.len() == 0 {
            self
        } else {
            self.write_string(bytes.drop_last()).write_byte(shown(bytes.last()))
        }
    }

    /// The number of scrolls that writing the bytes of a text makes.
    pub open spec fn scrolls(self, bytes: Seq<u8>) -> nat
        decreases bytes.len(),
    {
        if bytes.len() == 0 {
            0
        } else {
            let before = self.write_string(bytes.drop_last());
            let last: nat = if before.scrolls_on(shown(bytes.last())) {
                1
            } else {
                0
            };
            self.scrolls(bytes.drop_last()) + last
        }
    }
}

/// Every operation keeps a well-formed console well formed.
pub proof fn lemma_operations_keep_wf(s: Screen, byte: u8, row: int)
    requires
        s.wf(),
    ensures
        0 <= row < BUFFER_HEIGHT ==> s.clean_row(row).wf(),
        s.new_line().wf(),
        s.write_byte(byte).wf(),
{
}

/// Writing a text keeps a well-formed console well formed and keeps its
/// colors.
pub proof fn lemma_write_string_keeps_wf(s: Screen, bytes: Seq<u8>)
    requires
        s.wf(),
    ensures
        s.write_string(bytes).wf(),
        s.write_string(bytes).color == s.color,
    decreases bytes.len(),
{
    if bytes.len() > 0 {
        lemma_write_string_keeps_wf(s, bytes.drop_last());
        lemma_operations_keep_wf(s.write_string(bytes.drop_last()), shown(bytes.last()), 0);
    }
}

/// A byte other than a newline, written where the last row still has room,
/// appears at the cursor in the active colors; the cursor moves on by exactly
/// one column and no other cell changes.
pub proof fn lemma_write_byte_at_cursor(s: Screen, byte: u8)
    requires
        s.wf(),
        byte != NEWLINE,
        s.column < BUFFER_WIDTH,
    ensures
        s.write_byte(byte).rows[BUFFER_HEIGHT - 1][s.column as int] == s.glyph(byte),
        s.write_byte(byte).column == s.column + 1,
        s.write_byte(byte).color == s.color,
        forall|row: int, col: int|
            0 <= row < BUFFER_HEIGHT && 0 <= col < BUFFER_WIDTH && !(row == BUFFER_HEIGHT - 1 && col
                == s.column) ==> #[trigger] s.write_byte(byte).rows[row][col] == s.rows[row][col],
{
}

/// A byte other than a newline, written where the last row is full, scrolls
/// first and then appears at column 0 of the fresh last row.
pub proof fn lemma_write_byte_wraps(s: Screen, byte: u8)
    requires
        s.wf(),
        byte != NEWLINE,
        s.column == BUFFER_WIDTH,
    ensures
        s.write_byte(byte) == s.new_line().place(byte),
        s.write_byte(byte).rows[BUFFER_HEIGHT - 1] == s.blank_row().update(0, s.glyph(byte)),
        s.write_byte(byte).column == 1,
{
    assert(s.write_byte(byte).rows[BUFFER_HEIGHT - 1] =~= s.blank_row().update(0, s.glyph(byte)));
}

/// A byte of a text that is neither printable nor a newline is shown as the
/// placeholder: the cell left of the cursor then holds the placeholder glyph,
/// not the byte.
pub proof fn lemma_unprintable_shown_as_placeholder(s: Screen, byte: u8)
    requires
        s.wf(),
        !is_printable(byte),
        byte != NEWLINE,
    ensures
        shown(byte) == PLACEHOLDER,
        s.write_string(seq![byte]) == s.write_byte(PLACEHOLDER),
        ({
            let after = s.write_string(seq![byte]);
            let cell = after.rows[BUFFER_HEIGHT - 1][after.column - 1];
            &&& after.column >= 1
            &&& cell == s.glyph(PLACEHOLDER)
            &&& byte != PLACEHOLDER ==> cell.ascii_character != byte
        }),
{
    lemma_write_string_single(s, byte);
}

/// A text of one byte is one `write_byte` of what the byte is shown as.
pub proof fn lemma_write_string_single(s: Screen, byte: u8)
    ensures
        s.write_string(seq![byte]) == s.write_byte(shown(byte)),
{
    let bytes = seq![byte];
    assert(bytes.drop_last().len() == 0);
    assert(s.write_string(bytes.drop_last()) == s);
    assert(bytes.last() == byte);
}

/// Writing two texts one after the other is writing them joined.
pub proof fn lemma_write_string_concat(s: Screen, first: Seq<u8>, second: Seq<u8>)
    ensures
        s.write_string(first + second) == s.write_string(first).write_string(second),
        s.scrolls(first + second) == s.scrolls(first) + s.write_string(first).scrolls(second),
    decreases second.len(),
{
    if second.len() == 0 {
        assert(first + second =~= first);
    } else {
        lemma_write_string_concat(s, first, second.drop_last());
        assert((first + second).drop_last() =~= first + second.drop_last());
        assert((first + second).last() == second.last());
    }
}

/// The last row of `s` with the glyphs of `bytes` laid over it from the
/// cursor on.
pub open spec fn last_row_with(s: Screen, bytes: Seq<u8>) -> Seq<ScreenChar> {
    Seq::new(
        BUFFER_WIDTH as nat,
        |col: int|
            if s.column <= col < s.column + bytes.len() {
                s.glyph(shown(bytes[col - s.column]))
            } else {
                s.rows[BUFFER_HEIGHT - 1][col]
            },
    )
}

/// A text without newlines that fits into the rest of the last row is laid
/// out there, cell by cell, and nothing scrolls.
pub proof fn lemma_text_within_row(s: Screen, bytes: Seq<u8>)
    requires
        s.wf(),
        s.column + bytes.len() <= BUFFER_WIDTH,
        forall|i: int| 0 <= i < bytes.len() ==> bytes[i] != NEWLINE,
    ensures
        s.scrolls(bytes) == 0,
        s.write_string(bytes) == (Screen {
            column: s.column + bytes.len(),
            rows: s.rows.update(BUFFER_HEIGHT - 1, last_row_with(s, bytes)),
            ..s
        }),
    decreases bytes.len(),
{
    let expected = Screen {
        column: s.column + bytes.len(),
        rows: s.rows.update(BUFFER_HEIGHT - 1, last_row_with(s, bytes)),
        ..s
    };
    if bytes.len() == 0 {
        assert(last_row_with(s, bytes) =~= s.rows[BUFFER_HEIGHT - 1]);
        assert(expected.rows =~= s.rows);
    } else {
        let front = bytes.drop_last();
        lemma_text_within_row(s, front);
        let before = s.write_string(front);
        let last = shown(bytes.last());
        assert(last != NEWLINE);
        assert(before.write_byte(last) == before.place(last));
        assert(before.place(last).rows[BUFFER_HEIGHT - 1] =~= last_row_with(s, bytes));
        assert(before.place(last).rows =~= expected.rows);
    }
}

/// A full row of printable bytes written from column 0, and one printable
/// byte more: nothing scrolls while the row fills, the last byte makes exactly
/// one scroll, and its glyph lands at column 0 of the last row.
pub proof fn lemma_one_scroll_past_full_row(s: Screen, bytes: Seq<u8>)
    requires
        s.wf(),
        s.column == 0,
        bytes.len() == BUFFER_WIDTH + 1,
        forall|i: int| 0 <= i < bytes.len() ==> is_printable(bytes[i]),
    ensures
        s.scrolls(bytes.take(BUFFER_WIDTH as int)) == 0,
        s.write_string(bytes.take(BUFFER_WIDTH as int)).scrolls_on(bytes[BUFFER_WIDTH as int]),
        s.scrolls(bytes) == 1,
        s.write_string(bytes) == s.write_string(bytes.take(BUFFER_WIDTH as int)).new_line().place(
            bytes[BUFFER_WIDTH as int],
        ),
        s.write_string(bytes).rows[BUFFER_HEIGHT - 1][0] == s.glyph(bytes[BUFFER_WIDTH as int]),
        s.write_string(bytes).column == 1,
{
    let row = bytes.take(BUFFER_WIDTH as int);
    assert(bytes.drop_last() =~= row);
    lemma_text_within_row(s, row);
}

/// The screen after a line of `BUFFER_WIDTH + 1` printable bytes written from
/// column 0: the rows that were visible have moved up by one, the top one is
/// gone, the first `BUFFER_WIDTH` glyphs stand in the row above the last, and
/// the last row shows the final glyph alone.
pub proof fn lemma_overlong_line(s: Screen, bytes: Seq<u8>)
    requires
        s.wf(),
        s.column == 0,
        bytes.len() == BUFFER_WIDTH + 1,
        forall|i: int| 0 <= i < bytes.len() ==> is_printable(bytes[i]),
    ensures
        forall|row: int|
            1 <= row < BUFFER_HEIGHT - 1 ==> s.write_string(bytes).rows[row - 1]
                == #[trigger] s.rows[row],
        s.write_string(bytes).rows[BUFFER_HEIGHT - 2] == Seq::new(
            BUFFER_WIDTH as nat,
            |col: int| s.glyph(bytes[col]),
        ),
        s.write_string(bytes).rows[BUFFER_HEIGHT - 1] == s.blank_row().update(
            0,
            s.glyph(bytes[BUFFER_WIDTH as int]),
        ),
        s.write_string(bytes).column == 1,
        s.write_string(bytes).color == s.color,
{
    let row = bytes.take(BUFFER_WIDTH as int);
    assert(bytes.drop_last() =~= row);
    lemma_text_within_row(s, row);
    let full = s.write_string(row);
    lemma_write_byte_wraps(full, bytes[BUFFER_WIDTH as int]);
    assert(last_row_with(s, row) =~= Seq::new(BUFFER_WIDTH as nat, |col: int| s.glyph(bytes[col])));
}

/// After a scroll each row holds what the row below it held, glyphs and
/// colors alike; the last row is blank in the active colors; the cursor is at
/// column 0.
pub proof fn lemma_new_line_shifts_rows(s: Screen)
    requires
        s.wf(),
    ensures
        forall|row: int|
            1 <= row < BUFFER_HEIGHT ==> s.new_line().rows[row - 1] == #[trigger] s.rows[row],
        s.new_line().rows[BUFFER_HEIGHT - 1] == s.blank_row(),
        s.new_line().column == 0,
        s.new_line().color == s.color,
{
}

/// Cleaning a row twice is cleaning it once.
pub proof fn lemma_clean_row_idempotent(s: Screen, row: int)
    requires
        s.wf(),
        0 <= row < BUFFER_HEIGHT,
    ensures
        s.clean_row(row).clean_row(row) == s.clean_row(row),
{
    assert(s.clean_row(row).clean_row(row).rows =~= s.clean_row(row).rows);
}

} // verus!
