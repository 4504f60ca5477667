//! The color model: foreground and background, packed into the attribute byte
//! that the hardware expects.

use vstd::prelude::*;

verus! {

/// The sixteen colors of the VGA text mode, in the order of their hardware
/// numbers, `Black` = 0 up to `White` = 15.
#[derive(Debug, Clone, Copy, PartialEq, Eq, Structural)]
pub enum Color {
    Black,
    Blue,
    Green,
    Cyan,
    Red,
    Magenta,
    Brown,
    LightGray,
    DarkGray,
    LightBlue,
    LightGreen,
    LightCyan,
    LightRed,
    Pink,
    Yellow,
    White,
}

impl Color {
    /// The hardware number of the color.
    pub open spec fn number(self) -> u8 {
        match self {
            Color::Black => 0,
            Color::Blue => 1,
            Color::Green => 2,
            Color::Cyan => 3,
            Color::Red => 4,
            Color::Magenta => 5,
            Color::Brown => 6,
            Color::LightGray => 7,
            Color::DarkGray => 8,
            Color::LightBlue => 9,
            Color::LightGreen => 10,
            Color::LightCyan => 11,
            Color::LightRed => 12,
            Color::Pink => 13,
            Color::Yellow => 14,
            Color::White => 15,
        }
    }

    /// The hardware number of the color, a value below 16.
    #[verifier::when_used_as_spec(number)]
    pub fn code(self) -> (n: u8)
        ensures
            n == self.number(),
            n < 16,
    {
        match self {
            Color::Black => 0,
            Color::Blue => 1,
            Color::Green => 2,
            Color::Cyan => 3,
            Color::Red => 4,
            Color::Magenta => 5,
            Color::Brown => 6,
            Color::LightGray => 7,
            Color::DarkGray => 8,
            Color::LightBlue => 9,
            Color::LightGreen => 10,
            Color::LightCyan => 11,
            Color::LightRed => 12,
            Color::Pink => 13,
            Color::Yellow => 14,
            Color::White => 15,
        }
    }
}

/// The attribute byte of a cell: background in the high nibble, foreground in
/// the low nibble.
#[derive(Debug, Clone, Copy, PartialEq, Eq, Structural)]
pub struct ColorCode(pub u8);

impl ColorCode {
    /// The attribute byte that stands for `foreground` on `background`.
    pub open spec fn encode(foreground: Color, background: Color) -> u8 {
        (background.number() * 16 + foreground.number()) as u8
    }

    /// Packs a foreground and a background color into one attribute byte.
    pub fn new(foreground: Color, background: Color) -> (code: ColorCode)
        ensures
            code.0 == Self::encode(foreground, background),
            code.0 / 16 == background.number(),
            code.0 % 16 == foreground.number(),
    {
        let high: u8 = background.code();
        let low: u8 = foreground.code();
        assert(high << 4 | low == high * 16 + low) by (bit_vector)
            requires
                high < 16,
                low < 16,
        ;
        ColorCode(high << 4 | low)
    }
}

/// Two pairs of colors with the same attribute byte are the same pair.
pub proof fn lemma_encode_injective(f1: Color, b1: Color, f2: Color, b2: Color)
    requires
        ColorCode::encode(f1, b1) == ColorCode::encode(f2, b2),
    ensures
        f1 == f2,
        b1 == b2,
{
}

} // verus!
