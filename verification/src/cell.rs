//! One cell of the display surface and its two-byte hardware form.

use vstd::prelude::*;
use crate::color::ColorCode;

verus! {

/// A symbol together with the attribute it is shown in.
#[derive(Debug, Clone, Copy, PartialEq, Eq, Structural)]
pub struct ScreenChar {
    pub ascii_character: u8,
    pub color_code: ColorCode,
}

impl ScreenChar {
    /// The two bytes of a cell in memory: the symbol first, the attribute
    /// byte second.
    pub open spec fn spec_encode(self) -> Seq<u8> {
        seq![self.ascii_character, self.color_code@]
    }

    /// The cell that two bytes of surface memory show.
    pub open spec fn spec_decode(bytes: Seq<u8>) -> ScreenChar {
        ScreenChar { ascii_character: bytes[0], color_code: ColorCode::spec_from_bits(bytes[1]) }
    }

    /// Lays the cell out as the hardware expects it.
    pub fn encode(self) -> (bytes: [u8; 2])
        ensures
            bytes@ == self.spec_encode(),
            Self::spec_decode(bytes@) == self,
        no_unwind
    {
        proof {
            self.lemma_decode_encode();
        }
        let bytes: [u8; 2] = [self.ascii_character, self.color_code.bits()];
        assert(bytes@ =~= self.spec_encode());
        bytes
    }

    /// Reads a cell from its two bytes. Every pair of bytes is a cell.
    pub fn decode(bytes: [u8; 2]) -> (cell: ScreenChar)
        ensures
            cell == Self::spec_decode(bytes@),
            cell.spec_encode() == bytes@,
    {
        proof {
            Self::lemma_encode_decode(bytes@);
        }
        ScreenChar { ascii_character: bytes[0], color_code: ColorCode::from_bits(bytes[1]) }
    }

    /// Decoding the bytes of a cell gives the cell back.
    pub proof fn lemma_decode_encode(self)
        ensures
            Self::spec_decode(self.spec_encode()) == self,
            self.spec_encode().len() == 2,
            self.spec_encode()[0] == self.ascii_character,
            self.spec_encode()[1] == self.color_code@,
    {
        self.color_code.lemma_bits_determine(self.color_code);
    }

    /// Encoding the cell that two bytes show gives the two bytes back.
    pub proof fn lemma_encode_decode(bytes: Seq<u8>)
        requires
            bytes.len() == 2,
        ensures
            Self::spec_decode(bytes).spec_encode() == bytes,
    {
        ColorCode::lemma_from_bits(bytes[1]);
        assert(Self::spec_decode(bytes).spec_encode() =~= bytes);
    }
}

} // verus!
