//! The sixteen hardware colors and the attribute byte built from two of them.

use vstd::prelude::*;

verus! {

/// One of the sixteen colors of the text-mode palette.
#[derive(Debug, Clone, Copy, PartialEq, Eq, Structural)]
pub enum Color {
    Black,
    Blue,
    Green,
    Cyan,
    Red,
    Magenta,
    Brown,
    LightGray,
    DarkGray,
    LightBlue,
    LightGreen,
    LightCyan,
    LightRed,
    Pink,
    Yellow,
    White,
}

impl Color {
    /// The four-bit hardware code of the color: its position in the palette.
    pub open spec fn code_spec(self) -> u8 {
        match self {
            Color::Black => 0,
            Color::Blue => 1,
            Color::Green => 2,
            Color::Cyan => 3,
            Color::Red => 4,
            Color::Magenta => 5,
            Color::Brown => 6,
            Color::LightGray => 7,
            Color::DarkGray => 8,
            Color::LightBlue => 9,
            Color::LightGreen => 10,
            Color::LightCyan => 11,
            Color::LightRed => 12,
            Color::Pink => 13,
            Color::Yellow => 14,
            Color::White => 15,
        }
    }

    /// The four-bit hardware code of the color.
    #[verifier::when_used_as_spec(code_spec)]
    pub fn code(self) -> (c: u8)
        ensures
            c == self.code_spec(),
            c < 16,
    {
        match self {
            Color::Black => 0,
            Color::Blue => 1,
            Color::Green => 2,
            Color::Cyan => 3,
            Color::Red => 4,
            Color::Magenta => 5,
            Color::Brown => 6,
            Color::LightGray => 7,
            Color::DarkGray => 8,
            Color::LightBlue => 9,
            Color::LightGreen => 10,
            Color::LightCyan => 11,
            Color::LightRed => 12,
            Color::Pink => 13,
            Color::Yellow => 14,
            Color::White => 15,
        }
    }
}

/// The attribute byte of a cell: the background code in the high four bits and the
/// foreground code in the low four bits.
#[derive(Debug, Clone, Copy, PartialEq, Eq, Structural)]
pub struct ColorCode(pub u8);

impl ColorCode {
    /// The attribute byte that `new` packs from a foreground and a background.
    pub open spec fn pack(fg: Color, bg: Color) -> u8 {
        (bg.code_spec() << 4) | fg.code_spec()
    }

    /// Packs a foreground and a background color into one attribute byte.
    pub fn new(fg: Color, bg: Color) -> (code: ColorCode)
        ensures
            code.0 == Self::pack(fg, bg),
            code.0 == 16 * bg.code_spec() + fg.code_spec(),
            code.foreground() == fg.code_spec(),
            code.background() == bg.code_spec(),
    {
        let f: u8 = fg.code();
        let b: u8 = bg.code();
        assert(b < 16 && f < 16 ==> ((b << 4) | f) == 16 * b + f) by (bit_vector);
        assert(b < 16 && f < 16 ==> ((b << 4) | f) & 0x0f == f) by (bit_vector);
        assert(b < 16 && f < 16 ==> ((b << 4) | f) >> 4 == b) by (bit_vector);
        ColorCode((b << 4) | f)
    }

    /// The foreground code held in the low four bits.
    pub open spec fn foreground(self) -> u8 {
        self.0 & 0x0f
    }

    /// The background code held in the high four bits.
    pub open spec fn background(self) -> u8 {
        self.0 >> 4
    }

    /// Every attribute byte holds two codes of the palette, and is made of them
    /// as `new` packs them.
    pub proof fn lemma_codes_in_palette(self)
        ensures
            self.foreground() < 16,
            self.background() < 16,
            self.0 == (self.background() << 4) | self.foreground(),
    {
        let byte = self.0;
        assert(byte & 0x0f < 16) by (bit_vector);
        assert(byte >> 4 < 16) by (bit_vector);
        assert(byte == ((byte >> 4) << 4) | (byte & 0x0f)) by (bit_vector);
    }
}

} // verus!
