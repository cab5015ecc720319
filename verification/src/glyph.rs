//! Unicode block-element glyphs and the colored terminal cell.
//!
//! A chart packs a 2 by 2 block of boolean pixels into one character cell,
//! drawn with a quadrant block element; a horizontal bar uses nine
//! left-fill glyphs for eight sub-character fill levels. Both lookup
//! tables are fixed and stated as spec functions, so a contract can name
//! the exact glyph a cell shows.

use vstd::prelude::*;

verus! {

/// Foreground palette index used for every chart cell.
pub const CHART_FG: u8 = 0xE7;

/// Background palette index used for every chart cell.
pub const CHART_BG: u8 = 0x10;

/// One terminal cell: foreground and background palette indices and the
/// glyph to draw there.
#[derive(Clone, Copy, Debug, PartialEq, Eq, Structural)]
pub struct ColorChar {
    /// Foreground color, as a 256-color palette index.
    pub fg: u8,
    /// Background color, as a 256-color palette index.
    pub bg: u8,
    /// The character shown in the cell.
    pub glyph: char,
}

/// The quadrant block element showing a 2 by 2 pixel block: `ul`, `ur`,
/// `ll`, `lr` are the upper-left, upper-right, lower-left and lower-right
/// pixels of the cell.
pub open spec fn quad_glyph(ul: bool, ur: bool, ll: bool, lr: bool) -> char {
    if ul {
        if ur {
            if ll {
                if lr { '█' } else { '▛' }
            } else {
                if lr { '▜' } else { '▀' }
            }
        } else {
            if ll {
                if lr { '▙' } else { '▌' }
            } else {
                if lr { '▚' } else { '▘' }
            }
        }
    } else {
        if ur {
            if ll {
                if lr { '▟' } else { '▞' }
            } else {
                if lr { '▐' } else { '▝' }
            }
        } else {
            if ll {
                if lr { '▄' } else { '▖' }
            } else {
                if lr { '▗' } else { ' ' }
            }
        }
    }
}

/// Pick the quadrant block element for a 2 by 2 pixel block.
pub fn quad_glyph_exec(ul: bool, ur: bool, ll: bool, lr: bool) -> (c: char)
    ensures
        c == quad_glyph(ul, ur, ll, lr),
{
    if ul {
        if ur {
            if ll {
                if lr { '█' } else { '▛' }
            } else {
                if lr { '▜' } else { '▀' }
            }
        } else {
            if ll {
                if lr { '▙' } else { '▌' }
            } else {
                if lr { '▚' } else { '▘' }
            }
        }
    } else {
        if ur {
            if ll {
                if lr { '▟' } else { '▞' }
            } else {
                if lr { '▐' } else { '▝' }
            }
        } else {
            if ll {
                if lr { '▄' } else { '▖' }
            } else {
                if lr { '▗' } else { ' ' }
            }
        }
    }
}

/// The left-fill bar glyph for a fill level `i` of a cell, from `0`
/// (empty) through `8` (full), in eighths of the cell's width.
pub open spec fn hbar_glyph(i: int) -> char {
    if i <= 0 {
        ' '
    } else if i == 1 {
        '▏'
    } else if i == 2 {
        '▎'
    } else if i == 3 {
        '▍'
    } else if i == 4 {
        '▌'
    } else if i == 5 {
        '▋'
    } else if i == 6 {
        '▊'
    } else if i == 7 {
        '▉'
    } else {
        '█'
    }
}

/// Pick the left-fill bar glyph for a fill level `i` in `0 ..= 8`.
pub fn hbar_glyph_exec(i: usize) -> (c: char)
    requires
        i <= 8,
    ensures
        c == hbar_glyph(i as int),
{
    if i == 0 {
        ' '
    } else if i == 1 {
        '▏'
    } else if i == 2 {
        '▎'
    } else if i == 3 {
        '▍'
    } else if i == 4 {
        '▌'
    } else if i == 5 {
        '▋'
    } else if i == 6 {
        '▊'
    } else if i == 7 {
        '▉'
    } else {
        '█'
    }
}

} // verus!
