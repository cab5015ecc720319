//! Character-grid charts for the terminal.
//!
//! A [`graph::Graph`] renders a dataset into a grid of boolean
//! sub-character pixels and exposes it, through the [`grid::GridPrint`]
//! contract, as half-resolution cells built from unicode quadrant block
//! elements. An [`hbar::HBar`] is a single-row fill indicator with eight
//! sub-character levels per cell. Chart values are exact non-negative
//! fractions ([`frac::Frac`]), so every pixel of the output is pinned
//! down by the contracts.

pub mod buffer;
pub mod frac;
pub mod glyph;
pub mod graph;
pub mod grid;
pub mod hbar;
