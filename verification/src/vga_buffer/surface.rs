//! The hardware text surface: a fixed grid of character cells, each a glyph
//! byte followed by an attribute byte, reached only by volatile accesses.

use vstd::prelude::*;
use volatile::Volatile;
use super::color::ColorCode;

verus! {

/// Number of rows of the text buffer.
pub const BUFFER_HEIGHT: usize = 25;

/// Number of columns of the text buffer.
pub const BUFFER_WIDTH: usize = 80;

/// One character cell: a glyph and the colors it is shown in.
#[derive(Debug, Clone, Copy, PartialEq, Eq, Structural)]
pub struct ScreenChar {
    pub ascii_character: u8,
    pub color_code: ColorCode,
}

impl ScreenChar {
    /// The cell that the two bytes `[glyph, attribute]` stand for.
    pub open spec fn decode(bytes: Seq<u8>) -> ScreenChar {
        ScreenChar { ascii_character: bytes[0], color_code: ColorCode(bytes[1]) }
    }

    /// The two bytes of the cell in memory order: glyph first, then attribute.
    pub open spec fn encode(self) -> Seq<u8> {
        seq![self.ascii_character, self.color_code.0]
    }

    /// The cell as the hardware holds it.
    pub fn to_bytes(self) -> (bytes: [u8; 2])
        ensures
            bytes@ == self.encode(),
            Self::decode(bytes@) == self,
        no_unwind
    {
        let bytes: [u8; 2] = [self.ascii_character, self.color_code.0];
        assert(bytes@ =~= self.encode());
        bytes
    }

    /// The cell that the hardware holds as `bytes`.
    pub fn from_bytes(bytes: [u8; 2]) -> (cell: ScreenChar)
        ensures
            cell == Self::decode(bytes@),
    {
        ScreenChar { ascii_character: bytes[0], color_code: ColorCode(bytes[1]) }
    }
}

/// `volatile::Volatile`, a value that is read and written by volatile accesses
/// only. The verifier does not look inside.
#[verifier::external_type_specification]
#[verifier::external_body]
#[verifier::reject_recursive_types(T)]
pub struct ExVolatile<T: Copy>(Volatile<T>);

/// What a volatile cell of two bytes holds: the bytes that a read of it
/// returns. This takes the memory behind the cell to change by the writes of
/// its owner alone, as that of the text buffer does.
pub uninterp spec fn cell_bytes(cell: Volatile<[u8; 2]>) -> Seq<u8>;

/// `Volatile::read`: one volatile read of the cell, which returns a copy of
/// the value it holds.
#[verifier::external_body]
fn read_cell(cell: &Volatile<[u8; 2]>) -> (bytes: [u8; 2])
    ensures
        bytes@ == cell_bytes(*cell),
{
    cell.read()
}

/// `Volatile::write`: one volatile write, after which the cell holds `bytes`.
/// It never panics.
#[verifier::external_body]
fn write_cell(cell: &mut Volatile<[u8; 2]>, bytes: [u8; 2])
    ensures
        cell_bytes(*final(cell)) == bytes@,
    no_unwind
{
    cell.write(bytes)
}

/// `Volatile::new` for every cell of a grid: each cell wraps, and so holds,
/// `bytes`.
#[verifier::external_body]
fn filled_grid(bytes: [u8; 2]) -> (grid: [[Volatile<[u8; 2]>; BUFFER_WIDTH]; BUFFER_HEIGHT])
    ensures
        forall|row: int, col: int|
            0 <= row < BUFFER_HEIGHT && 0 <= col < BUFFER_WIDTH ==> cell_bytes(
                #[trigger] grid[row][col],
            ) == bytes@,
{
    core::array::from_fn(|_| core::array::from_fn(|_| Volatile::new(bytes)))
}

/// The rows of a grid, top to bottom, each `BUFFER_WIDTH` cells.
pub type Rows = Seq<Seq<ScreenChar>>;

/// A grid has `BUFFER_HEIGHT` rows of `BUFFER_WIDTH` cells.
pub open spec fn full_grid(rows: Rows) -> bool {
    &&& rows.len() == BUFFER_HEIGHT
    &&& forall|row: int| 0 <= row < BUFFER_HEIGHT ==> (#[trigger] rows[row]).len() == BUFFER_WIDTH
}

/// A row in which every cell is `cell`.
pub open spec fn uniform_row(cell: ScreenChar) -> Seq<ScreenChar> {
    Seq::new(BUFFER_WIDTH as nat, |col: int| cell)
}

/// A grid in which every cell is `cell`.
pub open spec fn uniform_grid(cell: ScreenChar) -> Rows {
    Seq::new(BUFFER_HEIGHT as nat, |row: int| uniform_row(cell))
}

/// The grid `rows` with `cell` put at (`row`, `col`).
pub open spec fn with_cell(rows: Rows, row: int, col: int, cell: ScreenChar) -> Rows {
    rows.update(row, rows[row].update(col, cell))
}

/// The text buffer. On the machine it lies at a fixed address; the same type
/// over ordinary memory behaves alike.
pub struct Buffer {
    chars: [[Volatile<[u8; 2]>; BUFFER_WIDTH]; BUFFER_HEIGHT],
}

impl Buffer {
    /// The cells of the buffer, row by row.
    pub closed spec fn view(&self) -> Rows {
        Seq::new(
            BUFFER_HEIGHT as nat,
            |row: int|
                Seq::new(
                    BUFFER_WIDTH as nat,
                    |col: int| ScreenChar::decode(cell_bytes(self.chars[row][col])),
                ),
        )
    }

    /// The view of a buffer always has the full shape.
    pub proof fn lemma_full_grid(&self)
        ensures
            full_grid(self@),
    {
    }

    /// A buffer in ordinary memory, every cell holding `fill`.
    pub fn new(fill: ScreenChar) -> (buffer: Buffer)
        ensures
            buffer@ == uniform_grid(fill),
    {
        let buffer = Buffer { chars: filled_grid(fill.to_bytes()) };
        assert(buffer@ =~~= uniform_grid(fill));
        buffer
    }

    /// Reads the cell at (`row`, `col`) with one volatile access.
    pub fn read(&self, row: usize, col: usize) -> (cell: ScreenChar)
        requires
            row < BUFFER_HEIGHT,
            col < BUFFER_WIDTH,
        ensures
            cell == self@[row as int][col as int],
    {
        ScreenChar::from_bytes(read_cell(&self.chars[row][col]))
    }

    /// Writes `cell` at (`row`, `col`) with one volatile access; every other
    /// cell stays as it was.
    pub fn write(&mut self, row: usize, col: usize, cell: ScreenChar)
        requires
            row < BUFFER_HEIGHT,
            col < BUFFER_WIDTH,
        ensures
            final(self)@ == with_cell(old(self)@, row as int, col as int, cell),
        no_unwind
    {
        write_cell(&mut self.chars[row][col], cell.to_bytes());
        assert(self@ =~~= with_cell(old(self)@, row as int, col as int, cell));
    }
}

} // verus!
