//! Terminal size and the fitting of a source image into a grid of character cells.

use vstd::prelude::*;
use vstd::arithmetic::div_mod::{
    lemma_div_by_multiple, lemma_div_is_ordered, lemma_fundamental_div_mod, lemma_mod_pos_bound,
};

verus! {

/// Columns of the target box when the terminal's grid is unknown.
pub const DEFAULT_WIDTH_CELLS: i32 = 80;

/// Rows of the target box when the terminal's grid is unknown.
pub const DEFAULT_HEIGHT_CELLS: i32 = 24;

/// Shape of one character cell: its width to its height, in pixels.
#[derive(Clone, Copy, Debug, PartialEq, Eq, Structural)]
pub struct FontRatio {
    pub cell_width: u32,
    pub cell_height: u32,
}

impl FontRatio {
    /// Both sides of the cell are positive.
    pub open spec fn valid(self) -> bool {
        self.cell_width > 0 && self.cell_height > 0
    }

    pub fn new(cell_width: u32, cell_height: u32) -> (r: FontRatio)
        requires
            cell_width > 0,
            cell_height > 0,
        ensures
            r.cell_width == cell_width,
            r.cell_height == cell_height,
            r.valid(),
    {
        FontRatio { cell_width, cell_height }
    }

    /// Cells twice as tall as they are wide: the ratio assumed when nothing better is known.
    pub fn default_ratio() -> (r: FontRatio)
        ensures
            r.cell_width == 1,
            r.cell_height == 2,
            r.valid(),
    {
        FontRatio { cell_width: 1, cell_height: 2 }
    }
}

/// Size of the terminal window; `-1` marks a value that is not known.
#[derive(Clone, Copy, Debug, PartialEq, Eq, Structural)]
pub struct TermSize {
    pub width_cells: i32,
    pub height_cells: i32,
    pub width_pixels: i32,
    pub height_pixels: i32,
}

/// The pixel size of the window, where the window reports one (a zero is none).
pub open spec fn known_pixels(v: u16) -> int {
    if v > 0 {
        v as int
    } else {
        -1
    }
}

/// Whether the grid of cells is known.
pub open spec fn grid_known(t: TermSize) -> bool {
    t.width_cells > 0 && t.height_cells > 0
}

/// The grid of cells, or the default box where it is not known.
pub open spec fn grid_of(t: TermSize) -> (int, int) {
    if grid_known(t) {
        (t.width_cells as int, t.height_cells as int)
    } else {
        (DEFAULT_WIDTH_CELLS as int, DEFAULT_HEIGHT_CELLS as int)
    }
}

/// Whether the pixel size of one cell can be derived from the window size.
pub open spec fn cell_known(t: TermSize) -> bool {
    &&& grid_known(t)
    &&& t.width_pixels >= t.width_cells
    &&& t.height_pixels >= t.height_cells
}

/// Pixel size of one cell, or `(-1, -1)` where it cannot be derived.
pub open spec fn cell_geometry_of(t: TermSize) -> (int, int) {
    if cell_known(t) {
        (t.width_pixels / t.width_cells, t.height_pixels / t.height_cells)
    } else {
        (-1, -1)
    }
}

/// Cell shape derived from the window size, or cells twice as tall as wide.
pub open spec fn font_ratio_of(t: TermSize) -> (int, int) {
    if cell_known(t) {
        cell_geometry_of(t)
    } else {
        (1, 2)
    }
}

impl TermSize {
    /// The window size as the terminal reports it: cells, then pixels (zero where unknown).
    pub fn new(columns: u16, rows: u16, width: u16, height: u16) -> (r: TermSize)
        ensures
            r.width_cells == columns as i32,
            r.height_cells == rows as i32,
            r.width_pixels as int == known_pixels(width),
            r.height_pixels as int == known_pixels(height),
    {
        let width_pixels: i32 = if width > 0 { width as i32 } else { -1 };
        let height_pixels: i32 = if height > 0 { height as i32 } else { -1 };
        TermSize { width_cells: columns as i32, height_cells: rows as i32, width_pixels, height_pixels }
    }

    /// A window of which nothing is known.
    pub fn unknown() -> (r: TermSize)
        ensures
            r.width_cells == -1,
            r.height_cells == -1,
            r.width_pixels == -1,
            r.height_pixels == -1,
            !grid_known(r),
    {
        TermSize { width_cells: -1, height_cells: -1, width_pixels: -1, height_pixels: -1 }
    }

    /// The grid of cells, or 80 by 24 where it is not known.
    pub fn grid(&self) -> (r: (i32, i32))
        ensures
            r.0 as int == grid_of(*self).0,
            r.1 as int == grid_of(*self).1,
            r.0 > 0,
            r.1 > 0,
    {
        if self.width_cells > 0 && self.height_cells > 0 {
            (self.width_cells, self.height_cells)
        } else {
            (DEFAULT_WIDTH_CELLS, DEFAULT_HEIGHT_CELLS)
        }
    }

    /// Pixel size of one cell, or `(-1, -1)` where the window does not give it.
    pub fn cell_geometry(&self) -> (r: (i32, i32))
        ensures
            r.0 as int == cell_geometry_of(*self).0,
            r.1 as int == cell_geometry_of(*self).1,
    {
        if self.width_cells > 0 && self.height_cells > 0 && self.width_pixels >= self.width_cells
            && self.height_pixels >= self.height_cells {
            (self.width_pixels / self.width_cells, self.height_pixels / self.height_cells)
        } else {
            (-1, -1)
        }
    }

    /// Shape of one cell, or cells twice as tall as wide where the window does not give it.
    pub fn font_ratio(&self) -> (r: FontRatio)
        ensures
            r.valid(),
            r.cell_width as int == font_ratio_of(*self).0,
            r.cell_height as int == font_ratio_of(*self).1,
    {
        let (w, h) = self.cell_geometry();
        if w > 0 && h > 0 {
            FontRatio { cell_width: w as u32, cell_height: h as u32 }
        } else {
            proof {
                if cell_known(*self) {
                    assert(self.width_pixels / self.width_cells >= 1) by (nonlinear_arith)
                        requires self.width_pixels >= self.width_cells, self.width_cells > 0;
                    assert(self.height_pixels / self.height_cells >= 1) by (nonlinear_arith)
                        requires self.height_pixels >= self.height_cells, self.height_cells > 0;
                }
            }
            FontRatio::default_ratio()
        }
    }
}

/// A dimension below one counts as one.
pub open spec fn at_least_one(v: int) -> int {
    if v < 1 {
        1
    } else {
        v
    }
}

/// The box that an unstretched output must fit: the terminal's grid (or the default
/// box), which without zoom is also capped at the source's own size, one cell per pixel.
pub open spec fn target_box(src_width: int, src_height: int, zoom: bool, term: TermSize) -> (int, int) {
    let (gw, gh) = grid_of(term);
    if zoom {
        (gw, gh)
    } else {
        (
            if at_least_one(src_width) < gw { at_least_one(src_width) } else { gw },
            if at_least_one(src_height) < gh { at_least_one(src_height) } else { gh },
        )
    }
}

/// Whether the source, seen through cells of the given shape, is wider than the box:
/// `sw / sh / (fw / fh) > bw / bh`, cross-multiplied.
pub open spec fn wider_than_box(sw: int, sh: int, f: FontRatio, bw: int, bh: int) -> bool {
    sw * f.cell_height * bh > bw * sh * f.cell_width
}

/// Output size in cells, rounded down: with `stretch` the terminal's grid (or the
/// default box) itself, whatever the source; otherwise the largest size inside the
/// target box with the source's shape, the box's width kept when the source is wider
/// than the box and its height kept when not.
pub open spec fn canvas_geometry(
    src_width: int,
    src_height: int,
    f: FontRatio,
    zoom: bool,
    stretch: bool,
    term: TermSize,
) -> (int, int) {
    let sw = at_least_one(src_width);
    let sh = at_least_one(src_height);
    let (bw, bh) = target_box(src_width, src_height, zoom, term);
    if stretch {
        grid_of(term)
    } else if wider_than_box(sw, sh, f, bw, bh) {
        (bw, at_least_one((bw * sh * f.cell_width) / (sw * f.cell_height)))
    } else {
        (at_least_one((bh * sw * f.cell_height) / (sh * f.cell_width)), bh)
    }
}

proof fn lemma_floor_within(a: int, b: int, c: int)
    requires
        0 <= a <= c * b,
        b > 0,
        c >= 0,
    ensures
        0 <= a / b <= c,
{
    lemma_div_is_ordered(a, c * b, b);
    lemma_div_by_multiple(c, b);
    lemma_div_is_ordered(0, a, b);
}

proof fn lemma_product_bound(x: int, y: int, z: int)
    requires
        0 <= x < 0x1_0000_0000,
        0 <= y < 0x1_0000_0000,
        0 <= z < 0x1_0000_0000,
    ensures
        0 <= x * y < 0x1_0000_0000_0000_0000,
        0 <= x * y * z < 0x1_0000_0000_0000_0000_0000_0000,
{
    assert(0 <= x * y < 0x1_0000_0000_0000_0000) by (nonlinear_arith)
        requires 0 <= x < 0x1_0000_0000, 0 <= y < 0x1_0000_0000;
    assert(0 <= (x * y) * z < 0x1_0000_0000_0000_0000_0000_0000) by (nonlinear_arith)
        requires 0 <= x * y < 0x1_0000_0000_0000_0000, 0 <= z < 0x1_0000_0000;
}

/// Size in cells of the canvas that shows a `src_width` by `src_height` image on the
/// terminal `term`, whose cells have the shape `font_ratio`. `zoom` lets the image grow
/// past one cell per source pixel; `stretch` ignores the source and fills the grid
/// exactly. Dimensions below one count as one, and so does a result that rounds down to zero.
pub fn calc_canvas_geometry(
    src_width: i32,
    src_height: i32,
    font_ratio: FontRatio,
    zoom: bool,
    stretch: bool,
    term: &TermSize,
) -> (r: (i32, i32))
    requires
        font_ratio.valid(),
    ensures
        r.0 as int == canvas_geometry(src_width as int, src_height as int, font_ratio, zoom, stretch, *term).0,
        r.1 as int == canvas_geometry(src_width as int, src_height as int, font_ratio, zoom, stretch, *term).1,
        stretch ==> r.0 as int == grid_of(*term).0 && r.1 as int == grid_of(*term).1,
        !stretch ==> 1 <= r.0 <= target_box(src_width as int, src_height as int, zoom, *term).0,
        !stretch ==> 1 <= r.1 <= target_box(src_width as int, src_height as int, zoom, *term).1,
        1 <= r.0 <= grid_of(*term).0,
        1 <= r.1 <= grid_of(*term).1,
{
    let sw: i32 = if src_width < 1 { 1 } else { src_width };
    let sh: i32 = if src_height < 1 { 1 } else { src_height };
    let (gw, gh) = term.grid();
    if stretch {
        return (gw, gh);
    }
    let (bw, bh) = if zoom {
        (gw, gh)
    } else {
        (if sw < gw { sw } else { gw }, if sh < gh { sh } else { gh })
    };
    let fw = font_ratio.cell_width as u128;
    let fh = font_ratio.cell_height as u128;
    proof {
        lemma_product_bound(sw as int, fh as int, bh as int);
        lemma_product_bound(bw as int, sh as int, fw as int);
        lemma_product_bound(bh as int, sw as int, fh as int);
        lemma_product_bound(sh as int, fw as int, 1);
        lemma_product_bound(sw as int, fh as int, 1);
    }
    let source_side = (sw as u128) * fh * (bh as u128);
    let box_side = (bw as u128) * (sh as u128) * fw;
    if source_side > box_side {
        let d = (sw as u128) * fh;
        proof {
            assert(0 < (sw as int) * (fh as int)) by (nonlinear_arith)
                requires sw > 0, fh > 0;
            assert(box_side as int <= (bh as int) * (d as int)) by (nonlinear_arith)
                requires
                    source_side as int > box_side as int,
                    source_side as int == (sw as int) * (fh as int) * (bh as int),
                    d as int == (sw as int) * (fh as int);
            lemma_floor_within(box_side as int, d as int, bh as int);
        }
        let q = box_side / d;
        let h: i32 = if q < 1 { 1 } else { q as i32 };
        (bw, h)
    } else {
        let d = (sh as u128) * fw;
        let num = (bh as u128) * (sw as u128) * fh;
        proof {
            assert(0 < (sh as int) * (fw as int)) by (nonlinear_arith)
                requires sh > 0, fw > 0;
            assert(num as int <= (bw as int) * (d as int)) by (nonlinear_arith)
                requires
                    source_side as int <= box_side as int,
                    source_side as int == (sw as int) * (fh as int) * (bh as int),
                    box_side as int == (bw as int) * (sh as int) * (fw as int),
                    num as int == (bh as int) * (sw as int) * (fh as int),
                    d as int == (sh as int) * (fw as int);
            lemma_floor_within(num as int, d as int, bw as int);
        }
        let q = num / d;
        let w: i32 = if q < 1 { 1 } else { q as i32 };
        (w, bh)
    }
}

proof fn lemma_floor_bracket(a: int, d: int)
    requires
        a >= 0,
        d > 0,
    ensures
        (a / d) * d <= a < (a / d + 1) * d,
        a / d >= 0,
{
    lemma_fundamental_div_mod(a, d);
    lemma_mod_pos_bound(a, d);
    lemma_div_is_ordered(0, a, d);
    assert((a / d) * d == d * (a / d)) by (nonlinear_arith);
    assert((a / d + 1) * d == d * (a / d) + d) by (nonlinear_arith);
}

/// The output always lies inside the terminal's grid (or the default box), and inside
/// the target box when not stretched; it is at least one cell each way.
pub proof fn lemma_geometry_within_box(
    src_width: int,
    src_height: int,
    f: FontRatio,
    zoom: bool,
    stretch: bool,
    term: TermSize,
)
    requires
        f.valid(),
    ensures
        !stretch ==> 1 <= canvas_geometry(src_width, src_height, f, zoom, stretch, term).0
            <= target_box(src_width, src_height, zoom, term).0,
        !stretch ==> 1 <= canvas_geometry(src_width, src_height, f, zoom, stretch, term).1
            <= target_box(src_width, src_height, zoom, term).1,
        1 <= canvas_geometry(src_width, src_height, f, zoom, stretch, term).0 <= grid_of(term).0,
        1 <= canvas_geometry(src_width, src_height, f, zoom, stretch, term).1 <= grid_of(term).1,
{
    let sw = at_least_one(src_width);
    let sh = at_least_one(src_height);
    let fw = f.cell_width as int;
    let fh = f.cell_height as int;
    let (bw, bh) = target_box(src_width, src_height, zoom, term);
    assert(sw * fh > 0 && sh * fw > 0) by (nonlinear_arith)
        requires sw >= 1, sh >= 1, fw >= 1, fh >= 1;
    assert(bw * sh * fw >= 0 && bh * sw * fh >= 0) by (nonlinear_arith)
        requires sw >= 1, sh >= 1, fw >= 1, fh >= 1, bw >= 1, bh >= 1;
    if !stretch {
        if wider_than_box(sw, sh, f, bw, bh) {
            assert(bw * sh * fw <= bh * (sw * fh)) by (nonlinear_arith)
                requires sw * fh * bh > bw * sh * fw;
            lemma_floor_within(bw * sh * fw, sw * fh, bh);
        } else {
            assert(bh * sw * fh <= bw * (sh * fw)) by (nonlinear_arith)
                requires sw * fh * bh <= bw * sh * fw;
            lemma_floor_within(bh * sw * fh, sh * fw, bw);
        }
    }
}

/// Without stretch the output keeps the source's shape as seen through cells of the
/// given shape, up to rounding: the ideal width-to-height ratio
/// `(src_width / src_height) / (cell_width / cell_height)` lies strictly between
/// `w / (h + 1)` and `(w + 1) / h`, except where a side was raised to its minimum of one.
pub proof fn lemma_aspect_kept(src_width: int, src_height: int, f: FontRatio, zoom: bool, term: TermSize)
    requires
        f.valid(),
        src_width > 0,
        src_height > 0,
    ensures
        ({
            let (w, h) = canvas_geometry(src_width, src_height, f, zoom, false, term);
            &&& (w == 1 || w * src_height * f.cell_width < (h + 1) * src_width * f.cell_height)
            &&& (h == 1 || h * src_width * f.cell_height < (w + 1) * src_height * f.cell_width)
        }),
{
    let sw = src_width;
    let sh = src_height;
    let fw = f.cell_width as int;
    let fh = f.cell_height as int;
    let (bw, bh) = target_box(src_width, src_height, zoom, term);
    let (w, h) = canvas_geometry(src_width, src_height, f, zoom, false, term);
    lemma_geometry_within_box(src_width, src_height, f, zoom, false, term);
    assert(sw * fh > 0 && sh * fw > 0) by (nonlinear_arith)
        requires sw >= 1, sh >= 1, fw >= 1, fh >= 1;
    assert(bw * sh * fw >= 0 && bh * sw * fh >= 0) by (nonlinear_arith)
        requires sw >= 1, sh >= 1, fw >= 1, fh >= 1, bw >= 1, bh >= 1;
    if wider_than_box(sw, sh, f, bw, bh) {
        let a = bw * sh * fw;
        let d = sw * fh;
        let q = a / d;
        lemma_floor_bracket(a, d);
        assert(w == bw);
        assert(w * sh * fw < (h + 1) * sw * fh) by (nonlinear_arith)
            requires a == bw * sh * fw, d == sw * fh, a < (q + 1) * d, w == bw, h >= q, h >= 1, d > 0;
        if h != 1 {
            assert(h == q);
            assert(h * sw * fh < (w + 1) * sh * fw) by (nonlinear_arith)
                requires a == bw * sh * fw, d == sw * fh, q * d <= a, w == bw, h == q, sh * fw > 0;
        }
    } else {
        let a = bh * sw * fh;
        let d = sh * fw;
        let q = a / d;
        lemma_floor_bracket(a, d);
        assert(h == bh);
        assert(h * sw * fh < (w + 1) * sh * fw) by (nonlinear_arith)
            requires a == bh * sw * fh, d == sh * fw, a < (q + 1) * d, h == bh, w >= q, w >= 1, d > 0;
        if w != 1 {
            assert(w == q);
            assert(w * sh * fw < (h + 1) * sw * fh) by (nonlinear_arith)
                requires a == bh * sw * fh, d == sh * fw, q * d <= a, h == bh, w == q, sw * fh > 0;
        }
    }
}

/// With stretch the output is exactly the terminal's grid (or the default box), so two
/// sources of any sizes, through cells of any shapes, give the same output.
pub proof fn lemma_stretch_fills_box(
    src_width: int,
    src_height: int,
    f: FontRatio,
    other_width: int,
    other_height: int,
    g: FontRatio,
    zoom: bool,
    term: TermSize,
)
    ensures
        canvas_geometry(src_width, src_height, f, zoom, true, term) == grid_of(term),
        canvas_geometry(src_width, src_height, f, zoom, true, term) == canvas_geometry(
            other_width,
            other_height,
            g,
            zoom,
            true,
            term,
        ),
{
}

/// Without zoom the output never exceeds the terminal's grid, where that grid is known.
pub proof fn lemma_no_zoom_within_grid(src_width: int, src_height: int, f: FontRatio, stretch: bool, term: TermSize)
    requires
        f.valid(),
        grid_known(term),
    ensures
        1 <= canvas_geometry(src_width, src_height, f, false, stretch, term).0 <= term.width_cells,
        1 <= canvas_geometry(src_width, src_height, f, false, stretch, term).1 <= term.height_cells,
{
    lemma_geometry_within_box(src_width, src_height, f, false, stretch, term);
}

} // verus!
