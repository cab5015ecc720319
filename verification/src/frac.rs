//! Exact non-negative fractions, the chart values of this library.
//!
//! Chart data is normalized: a value of `0/1` sits at the bottom (or left)
//! edge and `1/1` at the top (or right) edge. Keeping values as integer
//! fractions lets every comparison against a grid line be decided exactly,
//! by cross multiplication, with no rounding anywhere.

use vstd::prelude::*;

verus! {

/// A product of two quantities that each fit in 64 bits fits in 128 bits.
pub proof fn lemma_mul_fits_u128(a: int, b: int)
    requires
        0 <= a <= u64::MAX,
        0 <= b <= u64::MAX,
    ensures
        0 <= a * b <= u64::MAX * u64::MAX,
{
    assert(a * b <= u64::MAX * u64::MAX) by (nonlinear_arith)
        requires
            0 <= a <= u64::MAX,
            0 <= b <= u64::MAX,
    ;
    assert(0 <= a * b) by (nonlinear_arith)
        requires
            0 <= a,
            0 <= b,
    ;
}

/// A non-negative rational `num / den`.
///
/// Charts expect values in `[0, 1]`; a value above `1` is not an error,
/// the chart simply saturates.
#[derive(Clone, Copy, Debug, PartialEq, Eq, Structural)]
pub struct Frac {
    /// Numerator.
    pub num: u32,
    /// Denominator; meaningful only when at least 1.
    pub den: u32,
}

impl Frac {
    /// A fraction is well formed when its denominator is positive.
    pub open spec fn wf(self) -> bool {
        self.den >= 1
    }

    /// Build `num / den`.
    pub fn new(num: u32, den: u32) -> (f: Frac)
        requires
            den >= 1,
        ensures
            f.num == num,
            f.den == den,
            f.wf(),
    {
        Frac { num, den }
    }

    /// `self >= y / h`, stated by cross multiplication (exact, and total
    /// even for `h == 0`).
    pub open spec fn ge_ratio(self, y: int, h: int) -> bool {
        self.num * h >= y * self.den
    }

    /// `floor(self * w)`: the grid line that `self`, scaled to a width of
    /// `w`, lands on.
    pub open spec fn scaled_floor(self, w: int) -> int {
        (self.num * w) / (self.den as int)
    }

    /// Decide `self >= y / h` exactly.
    pub fn ge_ratio_exec(&self, y: usize, h: usize) -> (r: bool)
        ensures
            r == self.ge_ratio(y as int, h as int),
    {
        proof {
            lemma_mul_fits_u128(self.num as int, h as int);
            lemma_mul_fits_u128(y as int, self.den as int);
        }
        (self.num as u128) * (h as u128) >= (y as u128) * (self.den as u128)
    }

    /// Compute `floor(self * w)` exactly.
    pub fn scaled_floor_exec(&self, w: usize) -> (r: u128)
        requires
            self.wf(),
        ensures
            r as int == self.scaled_floor(w as int),
    {
        proof {
            lemma_mul_fits_u128(self.num as int, w as int);
        }
        (self.num as u128) * (w as u128) / (self.den as u128)
    }
}

} // verus!
