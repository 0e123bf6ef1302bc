//! The sixteen colours of the text mode and the attribute byte that packs a
//! foreground and a background colour.

use vstd::prelude::*;

verus! {

/// One of the sixteen colours the display hardware knows.
#[derive(Debug, Clone, Copy, PartialEq, Eq, Structural)]
pub enum Color {
    Black,
    Blue,
    Green,
    Cyan,
    Red,
    Magenta,
    Brown,
    LightGray,
    DarkGray,
    LightBlue,
    LightGreen,
    LightCyan,
    LightRed,
    Pink,
    Yellow,
    White,
}

impl Color {
    /// The hardware code of the colour, a number that fits in four bits.
    pub open spec fn spec_code(self) -> u8 {
        match self {
            Color::Black => 0,
            Color::Blue => 1,
            Color::Green => 2,
            Color::Cyan => 3,
            Color::Red => 4,
            Color::Magenta => 5,
            Color::Brown => 6,
            Color::LightGray => 7,
            Color::DarkGray => 8,
            Color::LightBlue => 9,
            Color::LightGreen => 10,
            Color::LightCyan => 11,
            Color::LightRed => 12,
            Color::Pink => 13,
            Color::Yellow => 14,
            Color::White => 15,
        }
    }

    /// Returns the hardware code of the colour.
    #[verifier::when_used_as_spec(spec_code)]
    pub fn code(self) -> (code: u8)
        ensures
            code == self.spec_code(),
            code < 16,
    {
        match self {
            Color::Black => 0,
            Color::Blue => 1,
            Color::Green => 2,
            Color::Cyan => 3,
            Color::Red => 4,
            Color::Magenta => 5,
            Color::Brown => 6,
            Color::LightGray => 7,
            Color::DarkGray => 8,
            Color::LightBlue => 9,
            Color::LightGreen => 10,
            Color::LightCyan => 11,
            Color::LightRed => 12,
            Color::Pink => 13,
            Color::Yellow => 14,
            Color::White => 15,
        }
    }
}

/// The attribute byte of a cell: the foreground colour in the low nibble and
/// the background colour in the high nibble.
#[derive(Debug, Clone, Copy, PartialEq, Eq, Structural)]
pub struct ColorCode(u8);

/// The byte that packs a foreground code and a background code.
pub open spec fn pack(foreground: u8, background: u8) -> u8 {
    (background << 4) | foreground
}

impl View for ColorCode {
    type V = u8;

    /// The attribute byte as the hardware sees it.
    closed spec fn view(&self) -> u8 {
        self.0
    }
}

impl ColorCode {
    /// The attribute with the given byte.
    pub closed spec fn spec_from_bits(bits: u8) -> ColorCode {
        ColorCode(bits)
    }

    /// Packs a foreground and a background colour into an attribute byte.
    pub fn new(foreground: Color, background: Color) -> (color_code: ColorCode)
        ensures
            color_code@ == pack(foreground.code(), background.code()),
            color_code@ >> 4 == background.code(),
            color_code@ & 0xF == foreground.code(),
    {
        let f: u8 = foreground.code();
        let b: u8 = background.code();
        assert(((b << 4) | f) >> 4 == b && ((b << 4) | f) & 0xF == f) by (bit_vector)
            requires
                f < 16,
                b < 16,
        ;
        ColorCode((b << 4) | f)
    }

    /// The attribute with the given byte. Every byte is the attribute of
    /// exactly one pair of colours.
    pub fn from_bits(bits: u8) -> (color_code: ColorCode)
        ensures
            color_code@ == bits,
            color_code == Self::spec_from_bits(bits),
    {
        ColorCode(bits)
    }

    /// Returns the attribute byte.
    pub fn bits(self) -> (bits: u8)
        ensures
            bits == self@,
        no_unwind
    {
        self.0
    }

    /// An attribute is determined by its byte.
    pub proof fn lemma_bits_determine(self, other: ColorCode)
        ensures
            self@ == other@ <==> self == other,
            Self::spec_from_bits(self@) == self,
    {
    }

    /// The attribute made from a byte has that byte.
    pub proof fn lemma_from_bits(bits: u8)
        ensures
            Self::spec_from_bits(bits)@ == bits,
    {
    }

    /// Packing two colours and taking the byte apart again gives the two
    /// colours back: the high nibble is the background, the low nibble the
    /// foreground.
    pub proof fn lemma_pack_unpack(foreground: Color, background: Color)
        ensures
            pack(foreground.code(), background.code()) >> 4 == background.code(),
            pack(foreground.code(), background.code()) & 0xF == foreground.code(),
    {
        let f: u8 = foreground.code();
        let b: u8 = background.code();
        assert(((b << 4) | f) >> 4 == b && ((b << 4) | f) & 0xF == f) by (bit_vector)
            requires
                f < 16,
                b < 16,
        ;
    }
}

} // verus!
