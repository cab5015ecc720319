//! The boolean grid buffer behind a chart.
//!
//! A [`Buffer`] is a fixed-size two-dimensional array of booleans, one per
//! sub-character pixel, stored row major. It is created once with a fill
//! value, mutated cell by cell while a chart renders, and never resized.
//! Coordinate `y` counts rows from the bottom of the chart.

use vstd::prelude::*;

verus! {

/// Proof that a row-major index stays inside a `w * h` grid.
pub proof fn lemma_row_major_in_bounds(x: int, y: int, w: int, h: int)
    requires
        0 <= x < w,
        0 <= y < h,
    ensures
        0 <= y * w,
        0 <= y * w + x < w * h,
{
    assert(y * w + x < w * h) by (nonlinear_arith)
        requires
            0 <= x < w,
            0 <= y < h,
    ;
    assert(0 <= y * w) by (nonlinear_arith)
        requires
            0 <= y,
            0 <= w,
    ;
}

/// Proof that row-major indexing is injective: two distinct in-bounds
/// coordinates never share a storage slot.
pub proof fn lemma_row_major_injective(x1: int, y1: int, x2: int, y2: int, w: int)
    requires
        0 <= x1 < w,
        0 <= x2 < w,
        0 <= y1,
        0 <= y2,
        y1 * w + x1 == y2 * w + x2,
    ensures
        x1 == x2 && y1 == y2,
{
    assert(x1 == x2 && y1 == y2) by (nonlinear_arith)
        requires
            0 <= x1 < w,
            0 <= x2 < w,
            0 <= y1,
            0 <= y2,
            y1 * w + x1 == y2 * w + x2,
    ;
}

/// A fixed-size two-dimensional grid of booleans.
pub struct Buffer {
    /// Number of columns.
    pub width: usize,
    /// Number of rows.
    pub height: usize,
    /// Row-major cell storage, of length `width * height`.
    pub cells: Vec<bool>,
}

impl Buffer {
    /// The storage holds exactly one cell per coordinate.
    pub open spec fn wf(self) -> bool {
        self.cells@.len() == self.width * self.height
    }

    /// The cell at `(x, y)`.
    pub open spec fn at(self, x: int, y: int) -> bool {
        self.cells@[y * self.width + x]
    }

    /// Create a `width` by `height` grid with every cell set to `default`.
    pub fn new(width: usize, height: usize, default: bool) -> (b: Buffer)
        requires
            width * height <= usize::MAX,
        ensures
            b.wf(),
            b.width == width,
            b.height == height,
            forall|x: int, y: int|
                0 <= x < width && 0 <= y < height ==> b.at(x, y) == default,
    {
        let n = width * height;
        let mut cells: Vec<bool> = Vec::new();
        while cells.len() < n
            invariant
                cells@.len() <= n,
                forall|i: int| 0 <= i < cells@.len() ==> cells@[i] == default,
            decreases n - cells@.len(),
        {
            cells.push(default);
        }
        let b = Buffer { width, height, cells };
        proof {
            assert forall|x: int, y: int|
                0 <= x < width && 0 <= y < height implies b.at(x, y) == default by {
                lemma_row_major_in_bounds(x, y, width as int, height as int);
            }
        }
        b
    }

    /// Overwrite the cell at `(x, y)`, leaving every other cell and the
    /// dimensions unchanged.
    pub fn set(&mut self, x: usize, y: usize, value: bool)
        requires
            old(self).wf(),
            x < old(self).width,
            y < old(self).height,
        ensures
            final(self).wf(),
            final(self).width == old(self).width,
            final(self).height == old(self).height,
            final(self).at(x as int, y as int) == value,
            forall|x2: int, y2: int|
                0 <= x2 < old(self).width && 0 <= y2 < old(self).height
                    && !(x2 == x && y2 == y)
                    ==> final(self).at(x2, y2) == old(self).at(x2, y2),
    {
        proof {
            // the storage length, a vector length, bounds the index below
            assert(self.cells.len() <= usize::MAX);
            lemma_row_major_in_bounds(
                x as int,
                y as int,
                self.width as int,
                self.height as int,
            );
        }
        let i = y * self.width + x;
        self.cells[i] = value;
        proof {
            assert forall|x2: int, y2: int|
                0 <= x2 < self.width && 0 <= y2 < self.height
                    && !(x2 == x && y2 == y)
                    implies self.at(x2, y2) == old(self).at(x2, y2) by {
                lemma_row_major_in_bounds(x2, y2, self.width as int, self.height as int);
                if y2 * self.width + x2 == y * self.width + x {
                    lemma_row_major_injective(
                        x2,
                        y2,
                        x as int,
                        y as int,
                        self.width as int,
                    );
                }
            }
        }
    }

    /// Read the cell at `(x, y)`.
    pub fn get(&self, x: usize, y: usize) -> (v: bool)
        requires
            self.wf(),
            x < self.width,
            y < self.height,
        ensures
            v == self.at(x as int, y as int),
    {
        proof {
            // the storage length, a vector length, bounds the index below
            assert(self.cells.len() <= usize::MAX);
            lemma_row_major_in_bounds(
                x as int,
                y as int,
                self.width as int,
                self.height as int,
            );
        }
        self.cells[y * self.width + x]
    }
}

} // verus!
