//! The writer: byte dispatch, line wrap and scrolling on the display grid.

use vstd::prelude::*;
use vstd::string::*;
use crate::cell::{read_cell, write_cell, glyph_in, Buffer, ScreenChar, BUFFER_HEIGHT, BUFFER_WIDTH};
use crate::color::ColorCode;
use crate::screen::{
    blank_row, glyph, lemma_newline_blank_row, lemma_put_wf, lemma_scroll_shifts_rows,
    lemma_write_all_wf, Screen, NEWLINE, SENTINEL, SPACE,
};

verus! {

/// Appends text to the bottom row of a display grid that it holds exclusively.
pub struct Writer<'b> {
    current_column: usize,
    color_code: ColorCode,
    buffer: &'b mut Buffer,
}

/// What a grid in memory shows, row by row.
pub open spec fn shown_rows(buffer: Buffer) -> Seq<Seq<ScreenChar>> {
    Seq::new(
        BUFFER_HEIGHT as nat,
        |r: int| Seq::new(BUFFER_WIDTH as nat, |c: int| glyph_in(buffer@[r]@[c])),
    )
}

impl<'b> View for Writer<'b> {
    type V = Screen;

    closed spec fn view(&self) -> Screen {
        Screen {
            rows: shown_rows(*self.buffer),
            column: self.current_column as nat,
            color: self.color_code,
        }
    }
}

impl<'b> Writer<'b> {
    /// The cursor stands in a column of the row or directly behind the last one.
    #[verifier::type_invariant]
    pub closed spec fn cursor_in_row(&self) -> bool {
        self.current_column <= BUFFER_WIDTH
    }

    /// A writer on the given grid, with the cursor at the start of the bottom row.
    /// The grid keeps what it shows.
    pub fn new(color_code: ColorCode, buffer: &'b mut Buffer) -> (writer: Writer<'b>)
        ensures
            writer@.rows == shown_rows(*old(buffer)),
            writer@.column == 0,
            writer@.color == color_code,
            writer@.wf(),
    {
        Writer { current_column: 0, color_code, buffer }
    }

    /// A writer that meets its invariant, as every writer does, shows a well-formed
    /// screen: the grid has its fixed shape and the cursor stands in the row or
    /// directly behind it.
    pub proof fn lemma_wf(&self)
        requires
            self.cursor_in_row(),
        ensures
            self@.wf(),
    {
    }

    /// The cursor column.
    pub fn column(&self) -> (c: usize)
        ensures
            c == self@.column,
            c <= BUFFER_WIDTH,
    {
        proof {
            use_type_invariant(self);
        }
        self.current_column
    }

    /// The color that glyphs are drawn in.
    pub fn color_code(&self) -> (c: ColorCode)
        ensures
            c == self@.color,
    {
        self.color_code
    }

    /// What the cell in the given row and column shows.
    pub fn glyph_at(&self, row: usize, col: usize) -> (glyph: ScreenChar)
        requires
            row < BUFFER_HEIGHT,
            col < BUFFER_WIDTH,
        ensures
            glyph == self@.rows[row as int][col as int],
    {
        read_cell(&self.buffer[row][col])
    }

    /// Stores one glyph in a cell of the grid.
    fn store(&mut self, row: usize, col: usize, glyph: ScreenChar)
        requires
            row < BUFFER_HEIGHT,
            col < BUFFER_WIDTH,
        ensures
            final(self)@.rows == old(self)@.rows.update(
                row as int,
                old(self)@.rows[row as int].update(col as int, glyph),
            ),
            final(self)@.column == old(self)@.column,
            final(self)@.color == old(self)@.color,
    {
        proof {
            use_type_invariant(&*self);
        }
        write_cell(&mut self.buffer[row][col], glyph);
        assert(self@.rows =~~= old(self)@.rows.update(
            row as int,
            old(self)@.rows[row as int].update(col as int, glyph),
        ));
    }

    /// Overwrites every cell of a row with a space in the writer's color.
    pub fn clear_line(&mut self, row: usize)
        requires
            row < BUFFER_HEIGHT,
        ensures
            final(self)@.rows == old(self)@.rows.update(row as int, blank_row(old(self)@.color)),
            final(self)@.column == old(self)@.column,
            final(self)@.color == old(self)@.color,
    {
        let blank = ScreenChar { ascii_character: SPACE, color_code: self.color_code };
        let mut x: usize = 0;
        while x < BUFFER_WIDTH
            invariant
                row < BUFFER_HEIGHT,
                x <= BUFFER_WIDTH,
                blank == (ScreenChar { ascii_character: SPACE, color_code: old(self)@.color }),
                self@.column == old(self)@.column,
                self@.color == old(self)@.color,
                forall|r: int, c: int|
                    0 <= r < BUFFER_HEIGHT && 0 <= c < BUFFER_WIDTH ==> #[trigger] self@.rows[r][c] == (
                    if r == row && c < x {
                        blank
                    } else {
                        old(self)@.rows[r][c]
                    }),
            decreases BUFFER_WIDTH - x,
        {
            self.store(row, x, blank);
            x += 1;
        }
        assert(self@.rows =~~= old(self)@.rows.update(row as int, blank_row(old(self)@.color)));
    }

    /// Moves every row up by one, which discards the top row, then clears the
    /// bottom row and puts the cursor at its start.
    pub fn write_newline(&mut self)
        ensures
            final(self)@ == old(self)@.newline(),
            final(self)@.wf(),
            final(self)@.column == 0,
            forall|c: int|
                0 <= c < BUFFER_WIDTH ==> #[trigger] final(self)@.bottom()[c] == glyph(SPACE, old(self)@.color),
            forall|y: int|
                1 <= y < BUFFER_HEIGHT ==> #[trigger] final(self)@.rows[y - 1] == old(self)@.rows[y],
    {
        proof {
            lemma_newline_blank_row(old(self)@);
            lemma_scroll_shifts_rows(old(self)@);
        }
        let mut y: usize = 1;
        while y < BUFFER_HEIGHT
            invariant
                1 <= y <= BUFFER_HEIGHT,
                self@.column == old(self)@.column,
                self@.color == old(self)@.color,
                forall|r: int, c: int|
                    0 <= r < BUFFER_HEIGHT && 0 <= c < BUFFER_WIDTH ==> #[trigger] self@.rows[r][c] == (
                    if r < y - 1 {
                        old(self)@.rows[r + 1][c]
                    } else {
                        old(self)@.rows[r][c]
                    }),
            decreases BUFFER_HEIGHT - y,
        {
            let mut x: usize = 0;
            while x < BUFFER_WIDTH
                invariant
                    1 <= y < BUFFER_HEIGHT,
                    x <= BUFFER_WIDTH,
                    self@.column == old(self)@.column,
                    self@.color == old(self)@.color,
                    forall|r: int, c: int|
                        0 <= r < BUFFER_HEIGHT && 0 <= c < BUFFER_WIDTH ==> #[trigger] self@.rows[r][c] == (
                        if r < y - 1 || (r == y - 1 && c < x) {
                            old(self)@.rows[r + 1][c]
                        } else {
                            old(self)@.rows[r][c]
                        }),
                decreases BUFFER_WIDTH - x,
            {
                let value = self.glyph_at(y, x);
                self.store(y - 1, x, value);
                x += 1;
            }
            y += 1;
        }
        self.clear_line(BUFFER_HEIGHT - 1);
        self.current_column = 0;
        assert(self@.rows =~~= old(self)@.newline().rows);
    }

    /// Writes one byte: a line feed scrolls; any other byte is stored at the cursor
    /// in the bottom row, after a scroll where that row was full.
    pub fn write_byte(&mut self, b: u8)
        ensures
            final(self)@ == old(self)@.put(b),
            final(self)@.wf(),
    {
        proof {
            lemma_put_wf(old(self)@, b);
        }
        if b == NEWLINE {
            self.write_newline();
        } else {
            if self.current_column >= BUFFER_WIDTH {
                self.write_newline();
            }
            let col: usize = self.current_column;
            let shown = ScreenChar { ascii_character: b, color_code: self.color_code };
            self.store(BUFFER_HEIGHT - 1, col, shown);
            self.current_column = col + 1;
        }
    }

    /// Writes the bytes of a text in order: a printable byte and a line feed as
    /// they are, any other byte as the sentinel glyph.
    pub fn write_str(&mut self, s: &str)
        ensures
            final(self)@ == old(self)@.write_all(s.spec_bytes()),
            final(self)@.wf(),
            final(self)@.color == old(self)@.color,
    {
        proof {
            use_type_invariant(&*self);
            lemma_write_all_wf(old(self)@, s.spec_bytes());
        }
        let bytes = s.as_bytes();
        let mut i: usize = 0;
        while i < bytes.len()
            invariant
                i <= bytes@.len(),
                bytes@ == s.spec_bytes(),
                self@ == old(self)@.write_all(bytes@.take(i as int)),
            decreases bytes@.len() - i,
        {
            let b: u8 = bytes[i];
            assert(bytes@.take(i + 1).drop_last() =~= bytes@.take(i as int));
            if (0x20 <= b && b <= 0x7e) || b == NEWLINE {
                // a printable byte or a line feed
                self.write_byte(b);
            } else {
                // not in the printable range
                self.write_byte(SENTINEL);
            }
            i += 1;
        }
        assert(bytes@.take(i as int) =~= bytes@);
    }
}

} // verus!
