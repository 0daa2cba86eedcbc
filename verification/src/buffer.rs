//! The display grid: 25 rows of 80 character cells, each cell behind a volatile
//! wrapper so that no access to it is elided or reordered.

use vstd::prelude::*;
use volatile::Volatile;
use crate::color::ColorCode;

verus! {

/// The number of rows of the grid.
pub const BUFFER_HEIGHT: usize = 25;

/// The number of columns of the grid.
pub const BUFFER_WIDTH: usize = 80;

/// A character byte and the attribute it is shown with.
#[derive(Debug, Clone, Copy, PartialEq, Eq, Structural)]
pub struct ScreenChar {
    pub ascii_character: u8,
    pub color_code: ColorCode,
}

/// The contents of a grid: rows of cells.
pub type Grid = Seq<Seq<ScreenChar>>;

/// A grid has `BUFFER_HEIGHT` rows of `BUFFER_WIDTH` cells each.
pub open spec fn grid_shaped(g: Grid) -> bool {
    &&& g.len() == BUFFER_HEIGHT
    &&& forall|r: int| 0 <= r < BUFFER_HEIGHT ==> (#[trigger] g[r]).len() == BUFFER_WIDTH
}

/// The grid `g` with the cell at (`row`, `col`) replaced by `cell`.
pub open spec fn grid_put(g: Grid, row: int, col: int, cell: ScreenChar) -> Grid {
    g.update(row, g[row].update(col, cell))
}

/// The grid `g` with every cell of `row` replaced by `cell`.
pub open spec fn grid_fill_row(g: Grid, row: int, cell: ScreenChar) -> Grid {
    g.update(row, Seq::new(BUFFER_WIDTH as nat, |c: int| cell))
}

/// The grid `g` scrolled by one row: every row but the last takes the cells of
/// the row below it; the last row keeps its own.
pub open spec fn grid_scroll(g: Grid) -> Grid {
    Seq::new(
        BUFFER_HEIGHT as nat,
        |r: int|
            if r + 1 < BUFFER_HEIGHT {
                g[r + 1]
            } else {
                g[r]
            },
    )
}

/// The outside type `volatile::Volatile`, carried through as an opaque value.
#[verifier::external_type_specification]
#[verifier::external_body]
#[verifier::reject_recursive_types(T)]
pub struct ExVolatile<T: Copy>(Volatile<T>);

/// The cell that a volatile wrapper holds.
pub uninterp spec fn stored(cell: Volatile<ScreenChar>) -> ScreenChar;

/// `Volatile::read`: a volatile read that hands back a copy of the value the
/// wrapper holds. Never panics.
#[verifier::external_body]
fn cell_read(cell: &Volatile<ScreenChar>) -> (c: ScreenChar)
    ensures
        c == stored(*cell),
{
    cell.read()
}

/// `Volatile::write`: a volatile write after which the wrapper holds `c`.
/// Never panics.
#[verifier::external_body]
fn cell_write(cell: &mut Volatile<ScreenChar>, c: ScreenChar)
    ensures
        stored(*final(cell)) == c,
{
    cell.write(c)
}

/// `Volatile::new`, once for every position of a fresh array of
/// `BUFFER_HEIGHT` rows by `BUFFER_WIDTH` columns: each wrapper then holds
/// `fill`.
#[verifier::external_body]
fn cells_filled(fill: ScreenChar) -> (cells: [[Volatile<ScreenChar>; BUFFER_WIDTH]; BUFFER_HEIGHT])
    ensures
        forall|r: int, c: int|
            0 <= r < BUFFER_HEIGHT && 0 <= c < BUFFER_WIDTH ==> stored(#[trigger] cells[r][c])
                == fill,
{
    core::array::from_fn(|_| core::array::from_fn(|_| Volatile::new(fill)))
}

/// The display grid. In a running kernel it lies over the memory that the video
/// hardware reads, so each cell is reached through its volatile wrapper only.
pub struct Buffer {
    chars: [[Volatile<ScreenChar>; BUFFER_WIDTH]; BUFFER_HEIGHT],
}

impl Buffer {
    /// The cell at (`row`, `col`).
    pub closed spec fn cell(&self, row: int, col: int) -> ScreenChar {
        stored(self.chars[row][col])
    }

    /// The contents of the grid, row by row.
    pub open spec fn view(&self) -> Grid {
        Seq::new(
            BUFFER_HEIGHT as nat,
            |r: int| Seq::new(BUFFER_WIDTH as nat, |c: int| self.cell(r, c)),
        )
    }

    /// A grid in ordinary memory with `fill` in every cell.
    pub fn filled(fill: ScreenChar) -> (buffer: Buffer)
        ensures
            forall|r: int, c: int|
                0 <= r < BUFFER_HEIGHT && 0 <= c < BUFFER_WIDTH ==> #[trigger] buffer@[r][c]
                    == fill,
    {
        Buffer { chars: cells_filled(fill) }
    }

    /// Reads the cell at (`row`, `col`).
    pub fn read(&self, row: usize, col: usize) -> (c: ScreenChar)
        requires
            row < BUFFER_HEIGHT,
            col < BUFFER_WIDTH,
        ensures
            c == self@[row as int][col as int],
    {
        cell_read(&self.chars[row][col])
    }

    /// Writes `c` to the cell at (`row`, `col`) and leaves every other cell as it was.
    pub fn write(&mut self, row: usize, col: usize, c: ScreenChar)
        requires
            row < BUFFER_HEIGHT,
            col < BUFFER_WIDTH,
        ensures
            final(self)@ == grid_put(old(self)@, row as int, col as int, c),
    {
        cell_write(&mut self.chars[row][col], c);
        assert(self@ =~~= grid_put(old(self)@, row as int, col as int, c));
    }
}

} // verus!
