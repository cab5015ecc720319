//! The contract for anything printable as a grid of colored characters.
//!
//! An implementor exposes a fixed character-cell size and a per-cell
//! colored-character lookup. The `y` index of [`GridPrint::get_cell`]
//! increases with decreasing vertical position on the screen: row `0` is
//! the top line of the output. Writing the rows to a terminal is left to
//! the caller, which walks `0 ..= rows - 1` and asks for one cell per
//! column.

use vstd::prelude::*;

use crate::glyph::ColorChar;

verus! {

/// A grid of colored characters of a fixed size.
pub trait GridPrint: Sized {
    /// When the grid may be asked for its cells at all.
    spec fn valid(self) -> bool;

    /// The size of the grid, as `(columns, rows)`.
    spec fn size_spec(self) -> (int, int);

    /// The cell shown at `(x, y)`; row `0` is the top line.
    spec fn cell_spec(self, x: int, y: int) -> ColorChar;

    /// Get the dimensions as `(width, height)`. Calls to `get_cell`
    /// should not exceed these bounds.
    fn get_size(&self) -> (r: (usize, usize))
        requires
            self.valid(),
        ensures
            r.0 as int == self.size_spec().0,
            r.1 as int == self.size_spec().1,
    ;

    /// Get the character residing in cell `(x, y)`; the `y` index
    /// increases with decreasing vertical position.
    fn get_cell(&self, x: usize, y: usize) -> (c: ColorChar)
        requires
            self.valid(),
            (x as int) < self.size_spec().0,
            (y as int) < self.size_spec().1,
        ensures
            c == self.cell_spec(x as int, y as int),
    ;
}

} // verus!
