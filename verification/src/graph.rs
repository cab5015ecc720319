//! The 2D graph: a dataset, a boolean pixel buffer, and a renderer.
//!
//! A [`Graph`] owns its dataset and re-renders the whole buffer whenever
//! the dataset is assigned. The renderer is a pure per-pixel rule picked
//! at construction: a histogram draws, for each column, a bar as tall as
//! the selected value; a scatter plot turns on exactly the pixels some
//! point lands on. Through [`GridPrint`], each output character packs a
//! 2 by 2 block of pixels into one quadrant block element, with the
//! buffer's bottom row shown at the bottom of the output.

use vstd::prelude::*;
use vstd::arithmetic::div_mod::{lemma_div_is_ordered, lemma_div_pos_is_pos, lemma_multiply_divide_lt};
use vstd::arithmetic::mul::{lemma_mul_inequality, lemma_mul_strict_inequality};

use crate::buffer::Buffer;
use crate::frac::{lemma_mul_fits_u128, Frac};
use crate::glyph::{quad_glyph, quad_glyph_exec, ColorChar, CHART_BG, CHART_FG};
use crate::grid::GridPrint;

verus! {

/// One data point: a horizontal and a vertical normalized value.
///
/// A histogram reads only `v`; a scatter plot reads both.
#[derive(Clone, Copy, Debug, PartialEq, Eq, Structural)]
pub struct Point {
    /// Horizontal position, normalized to `[0, 1)`.
    pub h: Frac,
    /// Vertical position or bar height, normalized to `[0, 1)`.
    pub v: Frac,
}

/// Every fraction of every point is well formed.
pub open spec fn data_wf(d: Seq<Point>) -> bool {
    forall|i: int| 0 <= i < d.len() ==> (#[trigger] d[i]).h.wf() && d[i].v.wf()
}

/// Which per-pixel rule a graph renders with.
#[derive(Clone, Copy, Debug, PartialEq, Eq, Structural)]
pub enum RenderKind {
    /// Vertical bars, one value per column.
    Histogram,
    /// One pixel per data point.
    Scatter,
}

/// The data index a histogram column `x` reads: `floor(len * x / width)`.
pub open spec fn hist_index(len: int, width: int, x: int) -> int {
    (len * x) / width
}

/// The histogram rule at pixel `(x, y)`: off for a dataset of fewer than
/// two points; otherwise on exactly when the selected value reaches the
/// row's normalized height `y / height`.
pub open spec fn hist_cell(d: Seq<Point>, width: int, height: int, x: int, y: int) -> bool {
    if d.len() <= 1 {
        false
    } else {
        d[hist_index(d.len() as int, width, x)].v.ge_ratio(y, height)
    }
}

/// The scatter rule at pixel `(x, y)`: on exactly when some point, scaled
/// to the buffer and floored, lands on `(x, y)`. A point sitting exactly
/// on a grid line belongs to the cell at whose lower-left corner it sits.
pub open spec fn scatter_cell(d: Seq<Point>, width: int, height: int, x: int, y: int) -> bool {
    exists|i: int|
        0 <= i < d.len() && (#[trigger] d[i]).h.scaled_floor(width) == x
            && d[i].v.scaled_floor(height) == y
}

/// The renderer: what chart `kind` shows at pixel `(x, y)` of a
/// `width` by `height` buffer holding dataset `d`.
pub open spec fn cell_on(
    kind: RenderKind,
    d: Seq<Point>,
    width: int,
    height: int,
    x: int,
    y: int,
) -> bool {
    match kind {
        RenderKind::Histogram => hist_cell(d, width, height, x, y),
        RenderKind::Scatter => scatter_cell(d, width, height, x, y),
    }
}

/// The histogram index of an in-range column is an in-range data index.
pub proof fn lemma_hist_index_range(len: int, width: int, x: int)
    requires
        1 <= len,
        0 <= x < width,
    ensures
        0 <= hist_index(len, width, x) < len,
{
    lemma_mul_strict_inequality(x, width, len);
    lemma_multiply_divide_lt(len * x, width, len);
    lemma_div_pos_is_pos(len * x, width);
}

/// Law: the histogram's source index is monotone in the column — a column
/// further right never selects an earlier data point.
pub proof fn lemma_hist_index_monotone(len: int, width: int, x1: int, x2: int)
    requires
        0 <= len,
        1 <= width,
        0 <= x1 <= x2,
    ensures
        hist_index(len, width, x1) <= hist_index(len, width, x2),
{
    lemma_mul_inequality(x1, x2, len);
    lemma_div_is_ordered(len * x1, len * x2, width);
}

/// Law: a histogram graph holding a dataset of length 0 or 1 draws
/// nothing — its rendered buffer is false everywhere, whatever the
/// dimensions.
pub proof fn lemma_hist_degenerate(g: Graph)
    requires
        g.kind == RenderKind::Histogram,
        g.rendered(),
        g.data@.len() <= 1,
    ensures
        forall|x: int, y: int|
            0 <= x < g.buf.width && 0 <= y < g.buf.height ==> !g.buf.at(x, y),
{
}

/// What `set_data` hands back: the dataset held before the call.
pub open spec fn set_data_returns(prev: Seq<Point>, next: Seq<Point>) -> Seq<Point> {
    prev
}

/// What `set_data` stores: the caller's new dataset.
pub open spec fn set_data_stores(prev: Seq<Point>, next: Seq<Point>) -> Seq<Point> {
    next
}

/// Law: assigning dataset `a` and then dataset `b` hands `a` back on the
/// second call — `set_data` always returns the previously stored data.
pub proof fn lemma_set_data_round_trip(d0: Seq<Point>, a: Seq<Point>, b: Seq<Point>)
    ensures
        set_data_returns(set_data_stores(d0, a), b) == a,
{
}

/// Evaluate the renderer for chart `kind` at pixel `(x, y)`.
pub fn render_cell(
    kind: RenderKind,
    data: &Vec<Point>,
    width: usize,
    height: usize,
    x: usize,
    y: usize,
) -> (on: bool)
    requires
        data_wf(data@),
        x < width,
        y < height,
    ensures
        on == cell_on(kind, data@, width as int, height as int, x as int, y as int),
{
    match kind {
        RenderKind::Histogram => {
            let len = data.len();
            if len <= 1 {
                false
            } else {
                proof {
                    lemma_mul_fits_u128(len as int, x as int);
                    lemma_hist_index_range(len as int, width as int, x as int);
                }
                let index = ((len as u128) * (x as u128) / (width as u128)) as usize;
                data[index].v.ge_ratio_exec(y, height)
            }
        }
        RenderKind::Scatter => {
            let len = data.len();
            let mut i: usize = 0;
            while i < len
                invariant
                    kind is Scatter,
                    len == data@.len(),
                    data_wf(data@),
                    i <= len,
                    x < width,
                    y < height,
                    forall|j: int|
                        0 <= j < i ==> !((#[trigger] data@[j]).h.scaled_floor(width as int)
                            == x as int && data@[j].v.scaled_floor(height as int) == y as int),
                decreases len - i,
            {
                let p = data[i];
                if p.h.scaled_floor_exec(width) == x as u128
                    && p.v.scaled_floor_exec(height) == y as u128 {
                    proof {
                        assert(scatter_cell(data@, width as int, height as int, x as int, y as int))
                            by {
                            assert(data@[i as int].h.scaled_floor(width as int) == x as int
                                && data@[i as int].v.scaled_floor(height as int) == y as int);
                        }
                    }
                    return true;
                }
                i += 1;
            }
            false
        }
    }
}

/// A simple 2D graph: a pixel buffer, the current dataset, and the
/// renderer picked at construction.
pub struct Graph {
    /// The renderer rule.
    pub kind: RenderKind,
    /// The boolean pixel buffer; its dimensions are fixed at construction.
    pub buf: Buffer,
    /// The current dataset.
    pub data: Vec<Point>,
}

impl Graph {
    /// The buffer storage is intact and the dataset's fractions are well
    /// formed.
    pub open spec fn wf(self) -> bool {
        self.buf.wf() && data_wf(self.data@)
    }

    /// Every pixel of the buffer agrees with the renderer on the current
    /// dataset.
    pub open spec fn rendered(self) -> bool {
        forall|x: int, y: int|
            0 <= x < self.buf.width && 0 <= y < self.buf.height
                ==> #[trigger] self.buf.at(x, y) == cell_on(
                self.kind,
                self.data@,
                self.buf.width as int,
                self.buf.height as int,
                x,
                y,
            )
    }

    /// Create a graph configured as a histogram. `width` and `height` are
    /// pixel values, twice the number of characters the graph takes up.
    /// The dataset starts empty and the buffer blank.
    pub fn hist(width: usize, height: usize) -> (g: Graph)
        requires
            width * height <= usize::MAX,
        ensures
            g.wf(),
            g.rendered(),
            g.kind == RenderKind::Histogram,
            g.buf.width == width,
            g.buf.height == height,
            g.data@.len() == 0,
    {
        Graph {
            kind: RenderKind::Histogram,
            buf: Buffer::new(width, height, false),
            data: Vec::new(),
        }
    }

    /// Create a graph configured as a scatter plot. `width` and `height`
    /// are pixel values, twice the number of characters the graph takes
    /// up. The dataset starts empty and the buffer blank.
    pub fn scatter(width: usize, height: usize) -> (g: Graph)
        requires
            width * height <= usize::MAX,
        ensures
            g.wf(),
            g.rendered(),
            g.kind == RenderKind::Scatter,
            g.buf.width == width,
            g.buf.height == height,
            g.data@.len() == 0,
    {
        Graph {
            kind: RenderKind::Scatter,
            buf: Buffer::new(width, height, false),
            data: Vec::new(),
        }
    }

    /// Render the graph data to the internal buffer. This is called
    /// automatically on every dataset assignment.
    pub fn render(&mut self)
        requires
            old(self).wf(),
        ensures
            final(self).wf(),
            final(self).rendered(),
            final(self).kind == old(self).kind,
            final(self).data == old(self).data,
            final(self).buf.width == old(self).buf.width,
            final(self).buf.height == old(self).buf.height,
    {
        let width = self.buf.width;
        let height = self.buf.height;
        let mut x: usize = 0;
        while x < width
            invariant
                self.wf(),
                self.kind == old(self).kind,
                self.data == old(self).data,
                self.buf.width == width,
                self.buf.height == height,
                x <= width,
                forall|xi: int, yi: int|
                    0 <= xi < x && 0 <= yi < height ==> #[trigger] self.buf.at(xi, yi)
                        == cell_on(
                        self.kind,
                        self.data@,
                        width as int,
                        height as int,
                        xi,
                        yi,
                    ),
            decreases width - x,
        {
            let mut y: usize = 0;
            while y < height
                invariant
                    self.wf(),
                    self.kind == old(self).kind,
                    self.data == old(self).data,
                    self.buf.width == width,
                    self.buf.height == height,
                    x < width,
                    y <= height,
                    forall|xi: int, yi: int|
                        0 <= xi < x && 0 <= yi < height ==> #[trigger] self.buf.at(xi, yi)
                            == cell_on(
                            self.kind,
                            self.data@,
                            width as int,
                            height as int,
                            xi,
                            yi,
                        ),
                    forall|yi: int|
                        0 <= yi < y ==> #[trigger] self.buf.at(x as int, yi) == cell_on(
                            self.kind,
                            self.data@,
                            width as int,
                            height as int,
                            x as int,
                            yi,
                        ),
                decreases height - y,
            {
                let on = render_cell(self.kind, &self.data, width, height, x, y);
                self.buf.set(x, y, on);
                y += 1;
            }
            x += 1;
        }
    }

    /// Set the graph data, returning ownership of the previous data; the
    /// buffer is fully re-rendered from the new dataset before returning.
    pub fn set_data(&mut self, data: Vec<Point>) -> (prev: Vec<Point>)
        requires
            old(self).wf(),
            data_wf(data@),
        ensures
            final(self).wf(),
            final(self).rendered(),
            final(self).kind == old(self).kind,
            final(self).buf.width == old(self).buf.width,
            final(self).buf.height == old(self).buf.height,
            prev@ == set_data_returns(old(self).data@, data@),
            final(self).data@ == set_data_stores(old(self).data@, data@),
    {
        let mut data = data;
        std::mem::swap(&mut data, &mut self.data);
        self.render();
        data
    }
}

impl GridPrint for Graph {
    /// A graph may be printed whenever it is well formed.
    open spec fn valid(self) -> bool {
        self.wf()
    }

    /// Half the buffer dimensions: each character packs 2 by 2 pixels.
    open spec fn size_spec(self) -> (int, int) {
        ((self.buf.width as int) / 2, (self.buf.height as int) / 2)
    }

    /// The quadrant block element for the 2 by 2 pixel block of cell
    /// `(x, y)`, colored with the chart palette. Output row `0` shows the
    /// top of the buffer, so the sampled rows count down from the top.
    open spec fn cell_spec(self, x: int, y: int) -> ColorChar {
        let base = self.buf.height - 2 * y - 2;
        ColorChar {
            fg: CHART_FG,
            bg: CHART_BG,
            glyph: quad_glyph(
                self.buf.at(2 * x, base + 1),
                self.buf.at(2 * x + 1, base + 1),
                self.buf.at(2 * x, base),
                self.buf.at(2 * x + 1, base),
            ),
        }
    }

    fn get_size(&self) -> (r: (usize, usize)) {
        (self.buf.width / 2, self.buf.height / 2)
    }

    fn get_cell(&self, x: usize, y: usize) -> (c: ColorChar) {
        let base = self.buf.height - (y + 1) * 2;
        let ul = self.buf.get(2 * x, base + 1);
        let ur = self.buf.get(2 * x + 1, base + 1);
        let ll = self.buf.get(2 * x, base);
        let lr = self.buf.get(2 * x + 1, base);
        ColorChar { fg: CHART_FG, bg: CHART_BG, glyph: quad_glyph_exec(ul, ur, ll, lr) }
    }
}

/// Law: the printed size of a graph is fixed by its buffer dimensions
/// alone and never depends on the dataset it holds.
pub proof fn lemma_size_independent_of_data(g1: Graph, g2: Graph)
    requires
        g1.buf.width == g2.buf.width,
        g1.buf.height == g2.buf.height,
    ensures
        g1.size_spec() == g2.size_spec(),
{
}

/// Law: the rendered buffer is a function of the kind, the dataset and
/// the dimensions alone, so rendering twice with unchanged data produces
/// an identical buffer both times.
pub proof fn lemma_render_deterministic(g1: Graph, g2: Graph)
    requires
        g1.rendered(),
        g2.rendered(),
        g1.kind == g2.kind,
        g1.data@ == g2.data@,
        g1.buf.width == g2.buf.width,
        g1.buf.height == g2.buf.height,
    ensures
        forall|x: int, y: int|
            0 <= x < g1.buf.width && 0 <= y < g1.buf.height ==> #[trigger] g1.buf.at(x, y)
                == g2.buf.at(x, y),
{
}

} // verus!
