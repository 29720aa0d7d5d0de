//! The mathematical model of the console: what the grid shows, where the cursor
//! stands, and how writing a byte changes both.

use vstd::prelude::*;
use crate::cell::{ScreenChar, BUFFER_HEIGHT, BUFFER_WIDTH};
use crate::color::ColorCode;

verus! {

/// The line-feed byte, which ends a line.
pub const NEWLINE: u8 = 0x0a;

/// The space byte, which fills a cleared row.
pub const SPACE: u8 = 0x20;

/// The glyph drawn in place of a byte that cannot be shown.
pub const SENTINEL: u8 = 0xfe;

/// Whether a byte lies in the printable ASCII range.
pub open spec fn is_printable(b: u8) -> bool {
    0x20 <= b <= 0x7e
}

/// The byte that is handed on for a byte of the input text: the byte itself where
/// it is printable or a line feed, the sentinel otherwise.
pub open spec fn shown_byte(b: u8) -> u8 {
    if is_printable(b) || b == NEWLINE {
        b
    } else {
        SENTINEL
    }
}

/// The glyph that a byte is drawn as in a given color.
pub open spec fn glyph(b: u8, color: ColorCode) -> ScreenChar {
    ScreenChar { ascii_character: b, color_code: color }
}

/// A full row of spaces in one color.
pub open spec fn blank_row(color: ColorCode) -> Seq<ScreenChar> {
    Seq::new(BUFFER_WIDTH as nat, |c: int| glyph(SPACE, color))
}

/// The state of the console: the rows of the grid from top to bottom, the cursor
/// column in the bottom row, and the color that new glyphs are drawn in.
pub struct Screen {
    pub rows: Seq<Seq<ScreenChar>>,
    pub column: nat,
    pub color: ColorCode,
}

impl Screen {
    /// The grid has its fixed shape.
    pub open spec fn grid_shaped(self) -> bool {
        &&& self.rows.len() == BUFFER_HEIGHT
        &&& forall|r: int| 0 <= r < BUFFER_HEIGHT ==> (#[trigger] self.rows[r]).len() == BUFFER_WIDTH
    }

    /// The grid has its fixed shape and the cursor stands in a column of the row or
    /// directly behind the last one.
    pub open spec fn wf(self) -> bool {
        &&& self.grid_shaped()
        &&& self.column <= BUFFER_WIDTH
    }

    /// The bottom row, to which glyphs are appended.
    pub open spec fn bottom(self) -> Seq<ScreenChar> {
        self.rows[BUFFER_HEIGHT - 1]
    }

    /// The state after a scroll: the top row is gone, every other row stands one
    /// higher, the bottom row is blank and the cursor stands at its start.
    pub open spec fn newline(self) -> Screen {
        Screen {
            rows: self.rows.subrange(1, BUFFER_HEIGHT as int).push(blank_row(self.color)),
            column: 0,
            color: self.color,
        }
    }

    /// The state after a glyph is stored at the cursor, which then moves on by one.
    pub open spec fn place(self, b: u8) -> Screen {
        Screen {
            rows: self.rows.update(
                BUFFER_HEIGHT - 1,
                self.bottom().update(self.column as int, glyph(b, self.color)),
            ),
            column: self.column + 1,
            color: self.color,
        }
    }

    /// The state after one byte is written: a line feed scrolls; any other byte is
    /// placed at the cursor, after a scroll where the bottom row was full.
    pub open spec fn put(self, b: u8) -> Screen {
        if b == NEWLINE {
            self.newline()
        } else if self.column >= BUFFER_WIDTH {
            self.newline().place(b)
        } else {
            self.place(b)
        }
    }

    /// The state after the bytes of a text are written in order, each one as
    /// `shown_byte` hands it on.
    pub open spec fn write_all(self, bytes: Seq<u8>) -> Screen
        decreases bytes.len(),
    {
        if bytes.len() == 0 {
            self
        } else {
            self.write_all(bytes.drop_last()).put(shown_byte(bytes.last()))
        }
    }
}

/// A scroll leaves the cursor at column zero and a bottom row in which every cell
/// holds a space in the current color.
pub proof fn lemma_newline_blank_row(s: Screen)
    requires
        s.grid_shaped(),
    ensures
        s.put(NEWLINE) == s.newline(),
        s.newline().wf(),
        s.newline().column == 0,
        s.newline().color == s.color,
        forall|c: int|
            0 <= c < BUFFER_WIDTH ==> #[trigger] s.newline().bottom()[c] == glyph(SPACE, s.color),
{
}

/// A scroll moves every row but the top one up by one: what row `y` held before
/// is what row `y - 1` holds after.
pub proof fn lemma_scroll_shifts_rows(s: Screen)
    requires
        s.grid_shaped(),
    ensures
        forall|y: int| 1 <= y < BUFFER_HEIGHT ==> #[trigger] s.newline().rows[y - 1] == s.rows[y],
{
}

/// Writing one byte keeps the shape of the grid and leaves the cursor inside the
/// row or directly behind it, wherever the cursor stood before.
pub proof fn lemma_put_wf(s: Screen, b: u8)
    requires
        s.grid_shaped(),
    ensures
        s.put(b).wf(),
        s.put(b).color == s.color,
{
}

/// Writing a text keeps a well-formed state well formed and keeps its color.
pub proof fn lemma_write_all_wf(s: Screen, bytes: Seq<u8>)
    requires
        s.wf(),
    ensures
        s.write_all(bytes).wf(),
        s.write_all(bytes).color == s.color,
    decreases bytes.len(),
{
    if bytes.len() > 0 {
        lemma_write_all_wf(s, bytes.drop_last());
        lemma_put_wf(s.write_all(bytes.drop_last()), shown_byte(bytes.last()));
    }
}

/// A text that ends in a line feed leaves the cursor at column zero and a blank
/// bottom row.
pub proof fn lemma_line_feed_last(s: Screen, bytes: Seq<u8>)
    requires
        s.wf(),
        bytes.len() > 0,
        bytes.last() == NEWLINE,
    ensures
        s.write_all(bytes).column == 0,
        forall|c: int|
            0 <= c < BUFFER_WIDTH ==> #[trigger] s.write_all(bytes).bottom()[c] == glyph(SPACE, s.color),
{
    lemma_write_all_wf(s, bytes.drop_last());
    lemma_newline_blank_row(s.write_all(bytes.drop_last()));
}

/// Printable bytes that fit behind the cursor are appended to the bottom row in
/// the current color, and nothing else on the grid changes.
pub proof fn lemma_append_in_row(s: Screen, text: Seq<u8>)
    requires
        s.grid_shaped(),
        s.column + text.len() <= BUFFER_WIDTH,
        forall|i: int| 0 <= i < text.len() ==> is_printable(#[trigger] text[i]),
    ensures
        s.write_all(text).grid_shaped(),
        s.write_all(text).column == s.column + text.len(),
        s.write_all(text).color == s.color,
        forall|i: int|
            0 <= i < text.len() ==> #[trigger] s.write_all(text).bottom()[s.column + i]
                == glyph(text[i], s.color),
        forall|c: int|
            0 <= c < BUFFER_WIDTH && !(s.column <= c < s.column + text.len())
                ==> #[trigger] s.write_all(text).bottom()[c] == s.bottom()[c],
        forall|r: int| 0 <= r < BUFFER_HEIGHT - 1 ==> #[trigger] s.write_all(text).rows[r] == s.rows[r],
    decreases text.len(),
{
    if text.len() > 0 {
        let head = text.drop_last();
        lemma_append_in_row(s, head);
        let mid = s.write_all(head);
        let end = s.write_all(text);
        assert(end == mid.place(text.last()));
        assert forall|i: int| 0 <= i < text.len() implies #[trigger] end.bottom()[s.column + i]
            == glyph(text[i], s.color) by {
            if i < head.len() {
                assert(mid.bottom()[s.column + i] == glyph(head[i], s.color));
            }
        }
    }
}

/// A printable text without a line feed that is shorter than a row, written with
/// the cursor at column zero, leaves the cursor at the text's length, its bytes in
/// the first cells of the bottom row in the current color, and every other cell
/// of the grid as it was.
pub proof fn lemma_short_line(s: Screen, text: Seq<u8>)
    requires
        s.wf(),
        s.column == 0,
        text.len() < BUFFER_WIDTH,
        forall|i: int| 0 <= i < text.len() ==> is_printable(#[trigger] text[i]),
    ensures
        s.write_all(text).column == text.len(),
        forall|i: int|
            0 <= i < text.len() ==> #[trigger] s.write_all(text).bottom()[i] == glyph(text[i], s.color),
        forall|c: int|
            text.len() <= c < BUFFER_WIDTH ==> #[trigger] s.write_all(text).bottom()[c]
                == s.bottom()[c],
        forall|r: int| 0 <= r < BUFFER_HEIGHT - 1 ==> #[trigger] s.write_all(text).rows[r] == s.rows[r],
{
    lemma_append_in_row(s, text);
    assert forall|i: int| 0 <= i < text.len() implies #[trigger] s.write_all(text).bottom()[i]
        == glyph(text[i], s.color) by {
        assert(s.write_all(text).bottom()[s.column + i] == glyph(text[i], s.color));
    }
}

/// A full row of printable bytes followed by one more byte scrolls exactly once:
/// the full row stands one row higher, cell for cell, every row above it has moved
/// up by one as well, and the bottom row is blank but for the byte that followed.
pub proof fn lemma_wrap_after_full_row(s: Screen, text: Seq<u8>, b: u8)
    requires
        s.wf(),
        s.column == 0,
        text.len() == BUFFER_WIDTH,
        forall|i: int| 0 <= i < text.len() ==> is_printable(#[trigger] text[i]),
    ensures
        s.write_all(text).column == BUFFER_WIDTH,
        forall|y: int|
            1 <= y < BUFFER_HEIGHT ==> #[trigger] s.write_all(text.push(b)).rows[y - 1]
                == s.write_all(text).rows[y],
        forall|c: int|
            0 <= c < BUFFER_WIDTH ==> #[trigger] s.write_all(text.push(b)).rows[BUFFER_HEIGHT - 2][c]
                == glyph(text[c], s.color),
        forall|r: int|
            0 <= r < BUFFER_HEIGHT - 2 ==> #[trigger] s.write_all(text.push(b)).rows[r]
                == s.rows[r + 1],
        shown_byte(b) == NEWLINE ==> {
            &&& s.write_all(text.push(b)).column == 0
            &&& s.write_all(text.push(b)).bottom() == blank_row(s.color)
        },
        shown_byte(b) != NEWLINE ==> {
            &&& s.write_all(text.push(b)).column == 1
            &&& s.write_all(text.push(b)).bottom() == blank_row(s.color).update(
                0,
                glyph(shown_byte(b), s.color),
            )
        },
{
    lemma_append_in_row(s, text);
    let full = s.write_all(text);
    let end = s.write_all(text.push(b));
    assert(text.push(b).drop_last() =~= text);
    assert(end == full.put(shown_byte(b)));
    lemma_scroll_shifts_rows(full);
    lemma_newline_blank_row(full);
    assert forall|c: int| 0 <= c < BUFFER_WIDTH implies #[trigger] end.rows[BUFFER_HEIGHT - 2][c]
        == glyph(text[c], s.color) by {
        assert(full.bottom()[s.column + c] == glyph(text[c], s.color));
        assert(end.rows[BUFFER_HEIGHT - 2] == full.rows[BUFFER_HEIGHT - 1]);
    }
    assert forall|r: int| 0 <= r < BUFFER_HEIGHT - 2 implies #[trigger] end.rows[r]
        == s.rows[r + 1] by {
        assert(end.rows[r + 1 - 1] == full.rows[r + 1]);
    }
    if shown_byte(b) == NEWLINE {
        assert(end.bottom() =~= blank_row(s.color));
    } else {
        assert(end.bottom() =~= blank_row(s.color).update(0, glyph(shown_byte(b), s.color)));
    }
}

/// A byte that is neither printable nor a line feed is drawn as the sentinel
/// glyph, in the cell where the cursor stood, or at the start of a fresh row where
/// the bottom row was full.
pub proof fn lemma_unprintable_shown_as_sentinel(s: Screen, b: u8)
    requires
        s.grid_shaped(),
        !is_printable(b),
        b != NEWLINE,
    ensures
        shown_byte(b) == SENTINEL,
        s.column < BUFFER_WIDTH ==> {
            &&& s.write_all(seq![b]).bottom()[s.column as int] == glyph(SENTINEL, s.color)
            &&& s.write_all(seq![b]).column == s.column + 1
        },
        s.column >= BUFFER_WIDTH ==> {
            &&& s.write_all(seq![b]).bottom()[0] == glyph(SENTINEL, s.color)
            &&& s.write_all(seq![b]).column == 1
        },
{
    let one = seq![b];
    assert(one.drop_last() =~= Seq::<u8>::empty());
    assert(s.write_all(one.drop_last()) == s);
    assert(one.last() == b);
    assert(s.write_all(one) == s.put(SENTINEL));
}

} // verus!
