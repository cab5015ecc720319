//! A single horizontal bar with eight fill levels per character.
//!
//! An [`HBar`] is one line of a horizontal bar plot: a fill value and a
//! character width, nothing else. There is no buffer; each cell's glyph
//! is computed on demand. A cell whose whole span lies under the fill
//! shows the full block; the cell the fill ends in shows one of eight
//! partial left-fill glyphs; cells past the fill are blank.

use vstd::prelude::*;
use vstd::arithmetic::div_mod::lemma_div_multiples_vanish;
use vstd::arithmetic::mul::{
    lemma_mul_inequality, lemma_mul_is_associative, lemma_mul_is_commutative,
    lemma_mul_is_distributive_sub, lemma_mul_nonnegative, lemma_mul_upper_bound,
};

use crate::frac::{lemma_mul_fits_u128, Frac};
use crate::glyph::{hbar_glyph, hbar_glyph_exec, ColorChar, CHART_BG, CHART_FG};
use crate::grid::GridPrint;

verus! {

/// A single-row fill indicator.
pub struct HBar {
    /// How much of the bar is filled, from `0/1` (empty) to `1/1` (full).
    pub value: Frac,
    /// How many characters wide the bar is.
    pub width: usize,
}

impl HBar {
    /// The fill level of cell `x`, from `0` (empty) through `8` (full):
    /// `9 * (value * width - x)`, floored and clamped to `0 ..= 8`.
    pub open spec fn index_spec(self, x: int) -> int {
        let t = self.value.num * self.width - x * self.value.den;
        if t <= 0 {
            0
        } else if 9 * t / (self.value.den as int) >= 8 {
            8
        } else {
            9 * t / (self.value.den as int)
        }
    }

    /// Create a new `HBar`.
    pub fn new(width: usize, value: Frac) -> (b: HBar)
        ensures
            b.width == width,
            b.value == value,
    {
        HBar { value, width }
    }

    /// Compute the fill level of cell `x`.
    pub fn fill_index(&self, x: usize) -> (i: usize)
        requires
            self.value.wf(),
        ensures
            i as int == self.index_spec(x as int),
            i <= 8,
    {
        proof {
            lemma_mul_fits_u128(self.value.num as int, self.width as int);
            lemma_mul_fits_u128(x as int, self.value.den as int);
        }
        let num_w = (self.value.num as u128) * (self.width as u128);
        let x_den = (x as u128) * (self.value.den as u128);
        if num_w <= x_den {
            0
        } else {
            proof {
                lemma_mul_upper_bound(
                    self.value.num as int,
                    u32::MAX as int,
                    self.width as int,
                    u64::MAX as int,
                );
                lemma_mul_inequality(
                    num_w - x_den,
                    u32::MAX as int * u64::MAX as int,
                    9,
                );
            }
            let q = 9 * (num_w - x_den) / (self.value.den as u128);
            if q >= 8 {
                8
            } else {
                q as usize
            }
        }
    }
}

/// Law: an empty bar shows the empty glyph in every cell — with a fill
/// value of zero, every cell's level is `0`.
pub proof fn lemma_hbar_empty(b: HBar, x: int)
    requires
        b.value.wf(),
        b.value.num == 0,
        0 <= x,
    ensures
        b.index_spec(x) == 0,
{
    lemma_mul_nonnegative(x, b.value.den as int);
}

/// Law: a full bar shows the full glyph in every cell left of `width` —
/// with a fill value of one, every such cell's level is `8`.
pub proof fn lemma_hbar_full(b: HBar, x: int)
    requires
        b.value.wf(),
        b.value.num == b.value.den,
        0 <= x < b.width,
    ensures
        b.index_spec(x) == 8,
{
    let den = b.value.den as int;
    let w = b.width as int;
    let t = den * w - x * den;
    lemma_mul_is_commutative(x, den);
    lemma_mul_is_distributive_sub(den, w, x);
    assert(t == den * (w - x));
    lemma_mul_inequality(1, w - x, den);
    lemma_mul_is_commutative(w - x, den);
    assert(t >= den);
    lemma_mul_is_associative(9, den, w - x);
    lemma_mul_is_commutative(9, den);
    lemma_mul_is_associative(den, 9, w - x);
    assert(9 * t == den * (9 * (w - x)));
    lemma_div_multiples_vanish(9 * (w - x), den);
    assert(9 * t / den == 9 * (w - x));
    lemma_mul_inequality(1, w - x, 9);
    lemma_mul_is_commutative(w - x, 9);
    assert(9 * (w - x) >= 9);
}

impl GridPrint for HBar {
    /// A bar may be printed whenever its fill value is well formed.
    open spec fn valid(self) -> bool {
        self.value.wf()
    }

    /// One row of `width` cells.
    open spec fn size_spec(self) -> (int, int) {
        (self.width as int, 1)
    }

    /// The left-fill glyph for the cell's fill level, colored with the
    /// chart palette; the single row ignores `y`.
    open spec fn cell_spec(self, x: int, y: int) -> ColorChar {
        ColorChar { fg: CHART_FG, bg: CHART_BG, glyph: hbar_glyph(self.index_spec(x)) }
    }

    fn get_size(&self) -> (r: (usize, usize)) {
        (self.width, 1)
    }

    fn get_cell(&self, x: usize, y: usize) -> (c: ColorChar) {
        let i = self.fill_index(x);
        ColorChar { fg: CHART_FG, bg: CHART_BG, glyph: hbar_glyph_exec(i) }
    }
}

} // verus!
