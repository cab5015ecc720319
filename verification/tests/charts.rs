use tplot::frac::Frac;
use tplot::glyph::{quad_glyph_exec, ColorChar};
use tplot::graph::{Graph, Point, RenderKind};
use tplot::grid::GridPrint;
use tplot::hbar::HBar;

fn pt(hn: u32, hd: u32, vn: u32, vd: u32) -> Point {
    Point { h: Frac::new(hn, hd), v: Frac::new(vn, vd) }
}

fn snapshot(g: &Graph) -> Vec<bool> {
    let mut cells = Vec::new();
    for y in 0..g.buf.height {
        for x in 0..g.buf.width {
            cells.push(g.buf.get(x, y));
        }
    }
    cells
}

#[test]
fn frac_comparisons() {
    let half = Frac::new(1, 2);
    assert!(half.ge_ratio_exec(1, 2));
    assert!(half.ge_ratio_exec(2, 4));
    assert!(!half.ge_ratio_exec(3, 4));
    assert_eq!(half.scaled_floor_exec(10), 5);
    assert_eq!(Frac::new(1, 3).scaled_floor_exec(10), 3);
    assert_eq!(Frac::new(0, 1).scaled_floor_exec(10), 0);
}

#[test]
fn buffer_set_and_get() {
    let mut b = tplot::buffer::Buffer::new(3, 2, false);
    assert_eq!(b.width, 3);
    assert_eq!(b.height, 2);
    for y in 0..2 {
        for x in 0..3 {
            assert!(!b.get(x, y));
        }
    }
    b.set(2, 1, true);
    assert!(b.get(2, 1));
    assert!(!b.get(1, 1));
    assert!(!b.get(2, 0));
}

#[test]
fn get_size_histogram() {
    let mut g = Graph::hist(10, 8);
    assert_eq!(g.get_size(), (5, 4));
    let _ = g.set_data(vec![pt(0, 1, 1, 2), pt(0, 1, 1, 4), pt(0, 1, 3, 4)]);
    assert_eq!(g.get_size(), (5, 4));
    assert_eq!(Graph::hist(9, 7).get_size(), (4, 3));
    assert_eq!(Graph::scatter(10, 8).get_size(), (5, 4));
}

#[test]
fn render_idempotent() {
    let mut g = Graph::hist(8, 8);
    let _ = g.set_data(vec![pt(0, 1, 1, 8), pt(0, 1, 4, 8), pt(0, 1, 7, 8)]);
    let first = snapshot(&g);
    g.render();
    let second = snapshot(&g);
    assert_eq!(first, second);

    let mut s = Graph::scatter(6, 6);
    let _ = s.set_data(vec![pt(1, 2, 1, 2), pt(1, 6, 5, 6)]);
    let first = snapshot(&s);
    s.render();
    let second = snapshot(&s);
    assert_eq!(first, second);
}

#[test]
fn set_data_round_trip() {
    let a = vec![pt(0, 1, 1, 2), pt(0, 1, 1, 3)];
    let b = vec![pt(0, 1, 2, 3)];
    let mut g = Graph::hist(4, 4);
    let empty = g.set_data(a.clone());
    assert_eq!(empty, Vec::new());
    let back = g.set_data(b);
    assert_eq!(back, a);
}

#[test]
fn histogram_degenerate_empty() {
    let mut g = Graph::hist(6, 4);
    let _ = g.set_data(Vec::new());
    for cell in snapshot(&g) {
        assert!(!cell);
    }
}

#[test]
fn histogram_degenerate_single() {
    let mut g = Graph::hist(6, 4);
    let _ = g.set_data(vec![pt(0, 1, 1, 1)]);
    for cell in snapshot(&g) {
        assert!(!cell);
    }
}

#[test]
fn histogram_exact_bars() {
    let mut g = Graph::hist(4, 4);
    let _ = g.set_data(vec![pt(0, 1, 1, 4), pt(0, 1, 1, 2), pt(0, 1, 3, 4), pt(0, 1, 1, 1)]);
    // column x reads data[x]; a pixel is on when value >= y / 4
    let heights = [2, 3, 4, 4];
    for x in 0..4 {
        for y in 0..4 {
            assert_eq!(g.buf.get(x, y), y < heights[x]);
        }
    }
}

#[test]
fn histogram_monotone_columns() {
    // distinct increasing values, width >= dataset length: bar heights
    // (hence selected source indices) never decrease from left to right
    let mut g = Graph::hist(8, 8);
    let _ = g.set_data(vec![pt(0, 1, 1, 8), pt(0, 1, 3, 8), pt(0, 1, 5, 8), pt(0, 1, 7, 8)]);
    let mut previous = 0;
    for x in 0..8 {
        let mut height = 0;
        for y in 0..8 {
            if g.buf.get(x, y) {
                height = y + 1;
            }
        }
        assert!(height >= previous);
        previous = height;
    }
}

#[test]
fn scatter_single_point() {
    let mut g = Graph::scatter(10, 10);
    assert_eq!(g.kind, RenderKind::Scatter);
    let _ = g.set_data(vec![pt(1, 2, 1, 2)]);
    for x in 0..10 {
        for y in 0..10 {
            assert_eq!(g.buf.get(x, y), x == 5 && y == 5);
        }
    }
}

#[test]
fn scatter_boundary_points() {
    // a point exactly on a grid line lands in the cell whose lower-left
    // corner it sits on; 0/1 maps to pixel 0
    let mut g = Graph::scatter(4, 4);
    let _ = g.set_data(vec![pt(0, 1, 0, 1), pt(3, 4, 1, 4)]);
    for x in 0..4 {
        for y in 0..4 {
            let expected = (x == 0 && y == 0) || (x == 3 && y == 1);
            assert_eq!(g.buf.get(x, y), expected);
        }
    }
}

#[test]
fn graph_cell_packs_quadrants() {
    // one pixel at (0, 0) of a 2 x 2 buffer: the single character shows
    // the lower-left quadrant
    let mut g = Graph::scatter(2, 2);
    let _ = g.set_data(vec![pt(1, 4, 1, 4)]);
    assert_eq!(g.get_size(), (1, 1));
    let c = g.get_cell(0, 0);
    assert_eq!(c.glyph, '▖');
    assert_eq!(c.fg, 0xE7);
    assert_eq!(c.bg, 0x10);
}

#[test]
fn graph_cell_rows_top_down() {
    // a full-height bar in the left column of a 2 x 4 histogram buffer;
    // the zero value on the right still lights its bottom pixel, because
    // 0 >= 0 / height holds there
    let mut g = Graph::hist(2, 4);
    let _ = g.set_data(vec![pt(0, 1, 1, 1), pt(0, 1, 0, 1)]);
    assert_eq!(g.get_size(), (1, 2));
    assert_eq!(g.get_cell(0, 0).glyph, '▌');
    assert_eq!(g.get_cell(0, 1).glyph, '▙');
}

#[test]
fn quad_glyph_all_combinations() {
    let expected = [
        ' ', '▗', '▖', '▄', '▝', '▐', '▞', '▟', '▘', '▚', '▌', '▙', '▀', '▜', '▛', '█',
    ];
    for bits in 0..16 {
        let ul = bits & 8 != 0;
        let ur = bits & 4 != 0;
        let ll = bits & 2 != 0;
        let lr = bits & 1 != 0;
        assert_eq!(quad_glyph_exec(ul, ur, ll, lr), expected[bits]);
    }
}

#[test]
fn hbar_empty_all_blank() {
    let b = HBar::new(5, Frac::new(0, 1));
    assert_eq!(b.get_size(), (5, 1));
    for x in 0..5 {
        assert_eq!(b.get_cell(x, 0).glyph, ' ');
    }
}

#[test]
fn hbar_full_all_blocks() {
    let b = HBar::new(5, Frac::new(1, 1));
    for x in 0..5 {
        assert_eq!(b.get_cell(x, 0).glyph, '█');
    }
}

#[test]
fn hbar_half_bar() {
    let b = HBar::new(4, Frac::new(1, 2));
    let glyphs: Vec<char> = (0..4).map(|x| b.get_cell(x, 0).glyph).collect();
    assert_eq!(glyphs, vec!['█', '█', ' ', ' ']);
}

#[test]
fn hbar_eighth_levels() {
    // with one cell, a value of k/8 fills the cell to level k
    let levels = [' ', '▏', '▎', '▍', '▌', '▋', '▊', '▉', '█'];
    for k in 0..9 {
        let b = HBar::new(1, Frac::new(k as u32, 8));
        assert_eq!(b.get_cell(0, 0).glyph, levels[k]);
    }
}

#[test]
fn hbar_partial_cell() {
    // 3/16 of a 2-cell bar: the first cell is filled 3/8, the second empty
    let b = HBar::new(2, Frac::new(3, 16));
    assert_eq!(b.get_cell(0, 0).glyph, '▍');
    assert_eq!(b.get_cell(1, 0).glyph, ' ');
}

#[test]
fn hbar_colors() {
    let b = HBar::new(1, Frac::new(1, 1));
    let c = b.get_cell(0, 0);
    assert_eq!(
        c,
        ColorChar { fg: 0xE7, bg: 0x10, glyph: '█' }
    );
}
