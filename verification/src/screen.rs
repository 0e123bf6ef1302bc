//! The mathematical model of the writer: what is on the surface, where the
//! cursor stands, and what emitting a symbol or a text does to both.

use vstd::prelude::*;
use crate::buffer::BUFFER_HEIGHT;
use crate::buffer::BUFFER_WIDTH;
use crate::buffer::surface_shaped;
use crate::cell::ScreenChar;
use crate::color::ColorCode;

verus! {

/// The line-feed control symbol.
pub const LINE_FEED: u8 = 0x0a;

/// The symbol shown in place of one that cannot be printed.
pub const UNPRINTABLE: u8 = 0xfe;

/// The symbol of an empty cell.
pub const BLANK: u8 = 0x20;

/// Whether a symbol is shown as it is: the printable range and the line feed.
pub open spec fn printable(byte: u8) -> bool {
    0x20 <= byte <= 0x7e || byte == LINE_FEED
}

/// The symbol that is emitted for a byte of a text.
pub open spec fn shown(byte: u8) -> u8 {
    if printable(byte) {
        byte
    } else {
        UNPRINTABLE
    }
}

/// A row of empty cells in the given attribute.
pub open spec fn blank_row(attribute: ColorCode) -> Seq<ScreenChar> {
    Seq::new(
        BUFFER_WIDTH as nat,
        |col: int| ScreenChar { ascii_character: BLANK, color_code: attribute },
    )
}

/// The state of a writer: the cursor column on the bottom row, the attribute
/// of the symbols it writes, and the cells on the surface.
pub struct Screen {
    pub column: nat,
    pub attribute: ColorCode,
    pub rows: Seq<Seq<ScreenChar>>,
}

impl Screen {
    /// The surface has its fixed shape and the cursor is at most one past the
    /// last column.
    pub open spec fn well_formed(self) -> bool {
        &&& surface_shaped(self.rows)
        &&& self.column <= BUFFER_WIDTH
    }

    /// The screen after a scroll: the top row is gone, every other row has
    /// moved up by one, the bottom row is empty in the current attribute and
    /// the cursor is back at the left edge.
    pub open spec fn scroll(self) -> Screen {
        Screen {
            column: 0,
            attribute: self.attribute,
            rows: self.rows.subrange(1, BUFFER_HEIGHT as int).push(blank_row(self.attribute)),
        }
    }

    /// The screen after a symbol is placed at the cursor, which then moves
    /// one column to the right.
    pub open spec fn place(self, byte: u8) -> Screen {
        let bottom = BUFFER_HEIGHT - 1;
        Screen {
            column: self.column + 1,
            attribute: self.attribute,
            rows: self.rows.update(
                bottom,
                self.rows[bottom].update(
                    self.column as int,
                    ScreenChar { ascii_character: byte, color_code: self.attribute },
                ),
            ),
        }
    }

    /// The screen after one symbol is emitted. A line feed scrolls and
    /// places nothing. Any other symbol is placed at the cursor, after a
    /// scroll if the bottom row is full.
    pub open spec fn emit_symbol(self, byte: u8) -> Screen {
        if byte == LINE_FEED {
            self.scroll()
        } else if self.column >= BUFFER_WIDTH {
            self.scroll().place(byte)
        } else {
            self.place(byte)
        }
    }

    /// The screen after the bytes of a text are emitted in order, each one
    /// as the symbol that is shown for it.
    pub open spec fn emit_text(self, text: Seq<u8>) -> Screen
        decreases text.len(),
    {
        if text.len() == 0 {
            self
        } else {
            self.emit_text(text.drop_last()).emit_symbol(shown(text.last()))
        }
    }
}

} // verus!
