//! What holds of every screen: the shape of a scroll, line feeds, the
//! substitution of unprintable bytes, and the filling and wrapping of the
//! bottom row.

use vstd::prelude::*;
use crate::buffer::BUFFER_HEIGHT;
use crate::buffer::BUFFER_WIDTH;
use crate::cell::ScreenChar;
use crate::screen::blank_row;
use crate::screen::printable;
use crate::screen::shown;
use crate::screen::Screen;
use crate::screen::BLANK;
use crate::screen::LINE_FEED;
use crate::screen::UNPRINTABLE;

verus! {

impl Screen {
    /// The cell that shows a symbol in the attribute of this screen.
    pub open spec fn cell(self, byte: u8) -> ScreenChar {
        ScreenChar { ascii_character: byte, color_code: self.attribute }
    }

    /// A scroll leaves a well-formed screen, whatever the cursor was.
    pub proof fn lemma_scroll_well_formed(self)
        requires
            self.well_formed(),
        ensures
            self.scroll().well_formed(),
    {
    }

    /// Emitting a symbol keeps the screen well formed and the attribute
    /// unchanged.
    pub proof fn lemma_emit_symbol_well_formed(self, byte: u8)
        requires
            self.well_formed(),
        ensures
            self.emit_symbol(byte).well_formed(),
            self.emit_symbol(byte).attribute == self.attribute,
    {
    }

    /// Emitting a text keeps the screen well formed and the attribute
    /// unchanged.
    pub proof fn lemma_emit_text_well_formed(self, text: Seq<u8>)
        requires
            self.well_formed(),
        ensures
            self.emit_text(text).well_formed(),
            self.emit_text(text).attribute == self.attribute,
        decreases text.len(),
    {
        if text.len() > 0 {
            self.lemma_emit_text_well_formed(text.drop_last());
            self.emit_text(text.drop_last()).lemma_emit_symbol_well_formed(shown(text.last()));
        }
    }

    /// Emitting two texts one after the other is emitting their
    /// concatenation.
    pub proof fn lemma_emit_text_concat(self, first: Seq<u8>, second: Seq<u8>)
        ensures
            self.emit_text(first + second) == self.emit_text(first).emit_text(second),
        decreases second.len(),
    {
        if second.len() == 0 {
            assert(first + second =~= first);
        } else {
            self.lemma_emit_text_concat(first, second.drop_last());
            assert((first + second).drop_last() =~= first + second.drop_last());
            assert((first + second).last() == second.last());
        }
    }

    /// After a scroll every row but the bottom one holds what the row below
    /// it held before, the bottom row is blank in the current attribute and
    /// the cursor is at the left edge.
    pub proof fn lemma_scroll_moves_rows_up(self)
        requires
            self.well_formed(),
        ensures
            forall|row: int|
                0 <= row < BUFFER_HEIGHT - 1 ==> #[trigger] self.scroll().rows[row] == self.rows[row
                    + 1],
            self.scroll().rows[BUFFER_HEIGHT - 1] == blank_row(self.attribute),
            forall|col: int|
                0 <= col < BUFFER_WIDTH ==> #[trigger] self.scroll().rows[BUFFER_HEIGHT - 1][col]
                    == self.cell(BLANK),
            self.scroll().column == 0,
            self.scroll().attribute == self.attribute,
    {
    }

    /// A scroll discards the top row and the cursor: two screens that agree
    /// on the attribute and on every row but the top one are equal after a
    /// scroll.
    pub proof fn lemma_scroll_discards_top_row(self, other: Screen)
        requires
            self.well_formed(),
            other.well_formed(),
            self.attribute == other.attribute,
            forall|row: int| 1 <= row < BUFFER_HEIGHT ==> #[trigger] self.rows[row] == other.rows[row],
        ensures
            self.scroll() == other.scroll(),
    {
        assert(self.scroll().rows =~= other.scroll().rows);
    }

    /// A line feed scrolls and puts the cursor at the left edge, whether or
    /// not the bottom row is full, and places no symbol.
    pub proof fn lemma_line_feed_scrolls(self)
        ensures
            self.emit_symbol(LINE_FEED) == self.scroll(),
            self.emit_text(seq![LINE_FEED]) == self.scroll(),
            self.emit_symbol(LINE_FEED).column == 0,
    {
        self.lemma_emit_text_one_byte(LINE_FEED);
    }

    /// Emitting a text of one byte emits one symbol: the byte itself if it is
    /// printable or a line feed, the unprintable symbol otherwise.
    pub proof fn lemma_emit_text_one_byte(self, byte: u8)
        ensures
            self.emit_text(seq![byte]) == self.emit_symbol(shown(byte)),
            printable(byte) ==> self.emit_text(seq![byte]) == self.emit_symbol(byte),
            !printable(byte) ==> self.emit_text(seq![byte]) == self.emit_symbol(UNPRINTABLE),
    {
        let text = seq![byte];
        assert(text.drop_last() =~= Seq::<u8>::empty());
        assert(text.last() == byte);
        assert(self.emit_text(text.drop_last()) == self);
    }

    /// A byte of a text that is no line feed puts exactly one symbol on the
    /// bottom row, at the cursor or, if the row was full, at the left edge
    /// after a scroll: the byte itself if it is in the printable range, the
    /// unprintable symbol otherwise. The cursor ends one column further.
    pub proof fn lemma_text_byte_is_placed(self, byte: u8)
        requires
            self.well_formed(),
            byte != LINE_FEED,
        ensures
            ({
                let after = self.emit_text(seq![byte]);
                let col = if self.column >= BUFFER_WIDTH {
                    0
                } else {
                    self.column as int
                };
                let symbol = if 0x20 <= byte <= 0x7e {
                    byte
                } else {
                    UNPRINTABLE
                };
                &&& after.column == col + 1
                &&& after.rows[BUFFER_HEIGHT - 1][col] == self.cell(symbol)
            }),
    {
        self.lemma_emit_text_one_byte(byte);
    }

    /// Symbols of the printable range that fit in what is left of the bottom
    /// row fill it from the cursor to the right, without a scroll: every
    /// other cell of the surface stays as it was and the cursor ends behind
    /// the last symbol.
    pub proof fn lemma_text_fills_row(self, text: Seq<u8>)
        requires
            self.well_formed(),
            self.column + text.len() <= BUFFER_WIDTH,
            forall|i: int| 0 <= i < text.len() ==> 0x20 <= #[trigger] text[i] <= 0x7e,
        ensures
            ({
                let after = self.emit_text(text);
                &&& after.well_formed()
                &&& after.column == self.column + text.len()
                &&& after.attribute == self.attribute
                &&& forall|row: int|
                    0 <= row < BUFFER_HEIGHT - 1 ==> #[trigger] after.rows[row] == self.rows[row]
                &&& forall|col: int|
                    self.column <= col < self.column + text.len() ==> #[trigger] after.rows[
                        BUFFER_HEIGHT - 1
                    ][col] == self.cell(text[col - self.column])
                &&& forall|col: int|
                    0 <= col < BUFFER_WIDTH && !(self.column <= col < self.column + text.len())
                        ==> #[trigger] after.rows[BUFFER_HEIGHT - 1][col] == self.rows[BUFFER_HEIGHT
                        - 1][col]
            }),
        decreases text.len(),
    {
        if text.len() > 0 {
            self.lemma_text_fills_row(text.drop_last());
        }
    }

    /// A symbol emitted when the bottom row is full causes exactly one
    /// scroll and lands at the left edge of the cleared bottom row: the full
    /// row is now the row above it, and the cursor is in the second column.
    pub proof fn lemma_full_row_wraps(self, byte: u8)
        requires
            self.well_formed(),
            self.column == BUFFER_WIDTH,
            byte != LINE_FEED,
        ensures
            ({
                let after = self.emit_symbol(byte);
                &&& after == self.scroll().place(byte)
                &&& after.column == 1
                &&& after.rows[BUFFER_HEIGHT - 1][0] == self.cell(byte)
                &&& forall|col: int|
                    1 <= col < BUFFER_WIDTH ==> #[trigger] after.rows[BUFFER_HEIGHT - 1][col]
                        == self.cell(BLANK)
                &&& forall|row: int|
                    0 <= row < BUFFER_HEIGHT - 1 ==> #[trigger] after.rows[row] == self.rows[row + 1]
            }),
    {
    }
}

} // verus!
