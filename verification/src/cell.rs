//! The two-byte cell of the display grid and the volatile access to it.

use vstd::prelude::*;
use volatile::Volatile;
use crate::color::ColorCode;

verus! {

/// Number of rows of the display grid.
pub const BUFFER_HEIGHT: usize = 25;

/// Number of columns of the display grid.
pub const BUFFER_WIDTH: usize = 80;

/// What one cell shows: a glyph byte and the attribute byte it is drawn with.
#[derive(Debug, Clone, Copy, PartialEq, Eq, Structural)]
pub struct ScreenChar {
    pub ascii_character: u8,
    pub color_code: ColorCode,
}

/// `volatile::Volatile`: a location holding one `Copy` value that is read and
/// written only by volatile loads and stores.
#[verifier::external_type_specification]
#[verifier::external_body]
#[verifier::reject_recursive_types(T)]
pub struct ExVolatile<T: Copy>(Volatile<T>);

/// One cell in memory: the glyph byte first, the attribute byte second, with no
/// padding between or around them.
pub type Cell = Volatile<[u8; 2]>;

/// The display grid in memory, row by row.
pub type Buffer = [[Cell; BUFFER_WIDTH]; BUFFER_HEIGHT];

/// The two bytes that a cell holds: the glyph byte, then the attribute byte.
pub uninterp spec fn cell_bytes(cell: Volatile<[u8; 2]>) -> (u8, u8);

/// What a cell shows.
pub open spec fn glyph_in(cell: Cell) -> ScreenChar {
    ScreenChar { ascii_character: cell_bytes(cell).0, color_code: ColorCode(cell_bytes(cell).1) }
}

/// `Volatile::read` on a cell: one volatile load of the two bytes that the cell
/// holds, handed back as glyph byte and attribute byte.
#[verifier::external_body]
pub(crate) fn read_cell(cell: &Volatile<[u8; 2]>) -> (glyph: ScreenChar)
    ensures
        glyph.ascii_character == cell_bytes(*cell).0,
        glyph.color_code.0 == cell_bytes(*cell).1,
{
    let bytes = cell.read();
    ScreenChar { ascii_character: bytes[0], color_code: ColorCode(bytes[1]) }
}

/// `Volatile::write` on a cell: one volatile store, after which the cell holds
/// the glyph byte and the attribute byte that were given. The store never
/// panics.
#[verifier::external_body]
pub(crate) fn write_cell(cell: &mut Volatile<[u8; 2]>, glyph: ScreenChar)
    ensures
        cell_bytes(*final(cell)) == (glyph.ascii_character, glyph.color_code.0),
    no_unwind
{
    cell.write([glyph.ascii_character, glyph.color_code.0]);
}

} // verus!
