//! The display surface: a grid of volatile two-byte cells at a fixed place in
//! memory, reached only through reads and writes of single cells.

use vstd::prelude::*;
use volatile::Volatile;
use crate::cell::ScreenChar;

verus! {

/// The number of rows of the surface.
pub const BUFFER_HEIGHT: usize = 25;

/// The number of cells in a row of the surface.
pub const BUFFER_WIDTH: usize = 80;

/// The physical address at which the hardware keeps the surface.
pub const BUFFER_ADDRESS: usize = 0xb8000;

/// `volatile::Volatile`, a cell of memory whose reads and writes the compiler
/// neither drops nor reorders. Nothing inside it is visible to the proofs.
#[verifier::external_type_specification]
#[verifier::external_body]
#[verifier::reject_recursive_types(T)]
pub struct ExVolatile<T: Copy>(Volatile<T>);

/// The memory of the surface: rows of cells, each cell two bytes.
pub type Grid = [[Volatile<[u8; 2]>; BUFFER_WIDTH]; BUFFER_HEIGHT];

/// The two bytes that a volatile cell holds. The display hardware only reads
/// the surface, so a cell holds what was last written to it.
pub uninterp spec fn cell_bytes(cell: Volatile<[u8; 2]>) -> [u8; 2];

/// `Volatile::read`: a volatile read that returns a copy of the value the cell
/// holds. It never panics.
#[verifier::external_body]
fn volatile_read(cell: &Volatile<[u8; 2]>) -> (bytes: [u8; 2])
    ensures
        bytes == cell_bytes(*cell),
{
    cell.read()
}

/// `Volatile::write`: a volatile write after which the cell holds the given
/// value. It never panics.
#[verifier::external_body]
fn volatile_write(cell: &mut Volatile<[u8; 2]>, bytes: [u8; 2])
    ensures
        cell_bytes(*final(cell)) == bytes,
    no_unwind
{
    cell.write(bytes)
}

/// The cells that a grid of surface memory shows, row by row.
pub open spec fn grid_cells(grid: Grid) -> Seq<Seq<ScreenChar>> {
    Seq::new(
        BUFFER_HEIGHT as nat,
        |row: int|
            Seq::new(
                BUFFER_WIDTH as nat,
                |col: int| ScreenChar::spec_decode(cell_bytes(grid[row][col])@),
            ),
    )
}

/// Whether a sequence of rows has the shape of the surface.
pub open spec fn surface_shaped(rows: Seq<Seq<ScreenChar>>) -> bool {
    &&& rows.len() == BUFFER_HEIGHT
    &&& forall|row: int| 0 <= row < BUFFER_HEIGHT ==> (#[trigger] rows[row]).len() == BUFFER_WIDTH
}

/// The exclusive handle to the display surface. It is neither copied nor
/// cloned, so at most one handle reaches a given grid.
pub struct Buffer {
    chars: &'static mut Grid,
}

impl View for Buffer {
    type V = Seq<Seq<ScreenChar>>;

    /// The cells on the surface, row by row.
    closed spec fn view(&self) -> Seq<Seq<ScreenChar>> {
        grid_cells(*self.chars)
    }
}

impl Buffer {
    /// Takes the exclusive reference to the memory of the surface.
    pub fn new(chars: &'static mut Grid) -> (buffer: Buffer)
        ensures
            buffer@ == grid_cells(*old(chars)),
            surface_shaped(buffer@),
    {
        Buffer { chars }
    }

    /// The surface always has its fixed shape.
    pub proof fn lemma_shape(&self)
        ensures
            surface_shaped(self@),
    {
    }

    /// Reads the cell at a row and a column of the surface.
    pub fn read(&self, row: usize, col: usize) -> (cell: ScreenChar)
        requires
            row < BUFFER_HEIGHT,
            col < BUFFER_WIDTH,
        ensures
            cell == self@[row as int][col as int],
    {
        ScreenChar::decode(volatile_read(&self.chars[row][col]))
    }

    /// Writes a cell at a row and a column of the surface, and changes no
    /// other cell.
    pub fn write(&mut self, row: usize, col: usize, cell: ScreenChar)
        requires
            row < BUFFER_HEIGHT,
            col < BUFFER_WIDTH,
        ensures
            final(self)@ == old(self)@.update(
                row as int,
                old(self)@[row as int].update(col as int, cell),
            ),
        no_unwind
    {
        volatile_write(&mut self.chars[row][col], cell.encode());
        assert(self@ =~~= old(self)@.update(
            row as int,
            old(self)@[row as int].update(col as int, cell),
        ));
    }
}

} // verus!
