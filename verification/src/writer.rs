//! The writer: it appends symbols to the bottom row of the surface, wraps at
//! the right edge and scrolls.

use vstd::prelude::*;
use vstd::string::StringSliceAdditionalSpecFns;
use crate::buffer::Buffer;
use crate::buffer::BUFFER_HEIGHT;
use crate::buffer::BUFFER_WIDTH;
use crate::buffer::surface_shaped;
use crate::cell::ScreenChar;
use crate::color::Color;
use crate::color::ColorCode;
use crate::color::pack;
use crate::screen::blank_row;
use crate::screen::Screen;
use crate::screen::BLANK;
use crate::screen::LINE_FEED;
use crate::screen::UNPRINTABLE;

verus! {

/// Writes symbols to the display surface it owns.
pub struct Writer {
    column_position: usize,
    color_code: ColorCode,
    buffer: Buffer,
}

impl View for Writer {
    type V = Screen;

    /// The state of the writer in the model.
    closed spec fn view(&self) -> Screen {
        Screen {
            column: self.column_position as nat,
            attribute: self.color_code,
            rows: self.buffer@,
        }
    }
}

impl Writer {
    #[verifier::type_invariant]
    spec fn cursor_in_range(&self) -> bool {
        self.column_position <= BUFFER_WIDTH
    }

    /// A writer on the given surface that writes in the given attribute,
    /// with the cursor at the left edge. What the surface shows stays.
    pub fn new(color_code: ColorCode, buffer: Buffer) -> (writer: Writer)
        ensures
            writer@ == (Screen { column: 0, attribute: color_code, rows: buffer@ }),
            writer@.well_formed(),
    {
        proof {
            buffer.lemma_shape();
        }
        Writer { column_position: 0, color_code, buffer }
    }

    /// A writer on the given surface that writes yellow on black, the
    /// attribute of the system console, with the cursor at the left edge.
    pub fn console(buffer: Buffer) -> (writer: Writer)
        ensures
            writer@ == (Screen {
                column: 0,
                attribute: ColorCode::spec_from_bits(pack(Color::Yellow.code(), Color::Black.code())),
                rows: buffer@,
            }),
            writer@.attribute@ == 0x0e,
            writer@.well_formed(),
    {
        let color_code = ColorCode::new(Color::Yellow, Color::Black);
        proof {
            color_code.lemma_bits_determine(
                ColorCode::spec_from_bits(pack(Color::Yellow.code(), Color::Black.code())),
            );
            assert(pack(14, 0) == 0x0e) by (bit_vector);
        }
        Writer::new(color_code, buffer)
    }

    /// The column of the bottom row at which the next symbol is written; it
    /// is the width of the surface when the row is full.
    pub fn column_position(&self) -> (column: usize)
        ensures
            column == self@.column,
            column <= BUFFER_WIDTH,
    {
        proof {
            use_type_invariant(self);
        }
        self.column_position
    }

    /// The attribute in which symbols are written and rows are cleared.
    pub fn color_code(&self) -> (color_code: ColorCode)
        ensures
            color_code == self@.attribute,
    {
        self.color_code
    }

    /// The surface the writer owns, for reading.
    pub fn buffer(&self) -> (buffer: &Buffer)
        ensures
            buffer@ == self@.rows,
    {
        &self.buffer
    }

    /// Emits one symbol: a line feed scrolls; any other symbol is written at
    /// the cursor on the bottom row, after a scroll if that row is full.
    pub fn write_byte(&mut self, byte: u8)
        ensures
            final(self)@ == old(self)@.emit_symbol(byte),
            final(self)@.well_formed(),
    {
        proof {
            use_type_invariant(&*self);
            self.buffer.lemma_shape();
        }
        if byte == LINE_FEED {
            self.new_line();
        } else {
            if self.column_position >= BUFFER_WIDTH {
                self.new_line();
            }
            let row: usize = BUFFER_HEIGHT - 1;
            let col: usize = self.column_position;
            let color_code = self.color_code;
            self.buffer.write(row, col, ScreenChar { ascii_character: byte, color_code });
            self.column_position += 1;
        }
        proof {
            self.buffer.lemma_shape();
        }
    }

    /// Emits a text byte by byte. Bytes of the printable range and line feeds
    /// are emitted as they are, every other byte as the unprintable symbol.
    pub fn write_string(&mut self, s: &str)
        ensures
            final(self)@ == old(self)@.emit_text(s.spec_bytes()),
            final(self)@.well_formed(),
    {
        proof {
            use_type_invariant(&*self);
            self.buffer.lemma_shape();
        }
        let bytes = s.as_bytes();
        let mut index: usize = 0;
        while index < bytes.len()
            invariant
                index <= bytes.len(),
                bytes@ == s.spec_bytes(),
                self@.well_formed(),
                self@ == old(self)@.emit_text(bytes@.subrange(0, index as int)),
            decreases bytes.len() - index,
        {
            let byte: u8 = bytes[index];
            proof {
                let next = bytes@.subrange(0, index + 1);
                assert(next.drop_last() =~= bytes@.subrange(0, index as int));
                assert(next.last() == byte);
            }
            if (0x20 <= byte && byte <= 0x7e) || byte == LINE_FEED {
                self.write_byte(byte);
            } else {
                self.write_byte(UNPRINTABLE);
            }
            index += 1;
        }
        proof {
            assert(bytes@.subrange(0, index as int) =~= bytes@);
        }
    }

    /// Scrolls: every row moves up by one, the bottom row is cleared and the
    /// cursor returns to the left edge.
    fn new_line(&mut self)
        ensures
            final(self)@ == old(self)@.scroll(),
    {
        proof {
            use_type_invariant(&*self);
            self.buffer.lemma_shape();
        }
        let ghost before = self.buffer@;
        for row in 1..BUFFER_HEIGHT
            invariant
                self.column_position == old(self).column_position,
                self.column_position <= BUFFER_WIDTH,
                self.color_code == old(self).color_code,
                before == old(self).buffer@,
                surface_shaped(before),
                surface_shaped(self.buffer@),
                forall|r: int| 0 <= r < row - 1 ==> #[trigger] self.buffer@[r] == before[r + 1],
                forall|r: int| row - 1 <= r < BUFFER_HEIGHT ==> #[trigger] self.buffer@[r] == before[r],
        {
            for col in 0..BUFFER_WIDTH
                invariant
                    1 <= row < BUFFER_HEIGHT,
                    self.column_position == old(self).column_position,
                    self.column_position <= BUFFER_WIDTH,
                    self.color_code == old(self).color_code,
                    before == old(self).buffer@,
                    surface_shaped(before),
                    surface_shaped(self.buffer@),
                    forall|r: int| 0 <= r < row - 1 ==> #[trigger] self.buffer@[r] == before[r + 1],
                    forall|r: int| row <= r < BUFFER_HEIGHT ==> #[trigger] self.buffer@[r] == before[r],
                    forall|c: int| 0 <= c < col ==> #[trigger] self.buffer@[row - 1][c] == before[row as int][c],
                    forall|c: int| col <= c < BUFFER_WIDTH ==> #[trigger] self.buffer@[row - 1][c] == before[row - 1][c],
            {
                let character = self.buffer.read(row, col);
                self.buffer.write(row - 1, col, character);
                proof {
                    self.buffer.lemma_shape();
                }
            }
            proof {
                assert(self.buffer@[row - 1] =~= before[row as int]);
            }
        }
        self.clear_row(BUFFER_HEIGHT - 1);
        self.column_position = 0;
        proof {
            assert(self.buffer@ =~= before.subrange(1, BUFFER_HEIGHT as int).push(
                blank_row(self.color_code),
            ));
        }
    }

    /// Fills a row with empty cells in the current attribute.
    fn clear_row(&mut self, row: usize)
        requires
            row < BUFFER_HEIGHT,
        ensures
            final(self)@ == (Screen {
                rows: old(self)@.rows.update(row as int, blank_row(old(self)@.attribute)),
                ..old(self)@
            }),
    {
        proof {
            use_type_invariant(&*self);
            self.buffer.lemma_shape();
        }
        let blank = ScreenChar { ascii_character: BLANK, color_code: self.color_code };
        for col in 0..BUFFER_WIDTH
            invariant
                row < BUFFER_HEIGHT,
                self.column_position == old(self).column_position,
                self.column_position <= BUFFER_WIDTH,
                self.color_code == old(self).color_code,
                blank == (ScreenChar { ascii_character: BLANK, color_code: self.color_code }),
                surface_shaped(old(self).buffer@),
                surface_shaped(self.buffer@),
                forall|r: int| 0 <= r < BUFFER_HEIGHT && r != row ==> #[trigger] self.buffer@[r] == old(self).buffer@[r],
                forall|c: int| 0 <= c < col ==> #[trigger] self.buffer@[row as int][c] == blank,
        {
            self.buffer.write(row, col, blank);
            proof {
                self.buffer.lemma_shape();
            }
        }
        proof {
            assert(self.buffer@[row as int] =~= blank_row(self.color_code));
            assert(self.buffer@ =~= old(self).buffer@.update(row as int, blank_row(self.color_code)));
        }
    }
}

/// `core::fmt::Error`, the error of the formatting machinery. It carries
/// nothing.
#[verifier::external_type_specification]
#[verifier::external_body]
pub struct ExFmtError(core::fmt::Error);

/// The writer as a sink for formatted text: every piece of text is emitted
/// and the writer never reports a failure.
impl core::fmt::Write for Writer {
    fn write_str(&mut self, s: &str) -> (result: Result<(), core::fmt::Error>)
        ensures
            result is Ok,
            final(self)@ == old(self)@.emit_text(s.spec_bytes()),
            final(self)@.well_formed(),
    {
        self.write_string(s);
        Ok(())
    }
}

} // verus!
