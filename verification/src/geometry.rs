use vstd::prelude::*;
use vstd::arithmetic::div_mod::{lemma_div_is_ordered, lemma_div_by_multiple, lemma_div_pos_is_pos};

verus! {

// Cell geometry of the strip. A row of `num` buttons divides a strip of
// `width` pixels so that each button is `width / (num + 1)` wide and the
// leftover width is spread evenly over the `num - 1` gaps; consecutive cell
// origins are then exactly `width * num / (num * num - 1)` apart, which insets
// the first and last buttons by half a button width. All geometry is exact
// rational arithmetic over integers; painting coordinates are carried in
// fixed-point units of 1/256 pixel.

/// Fixed-point painting scale: 256 units per pixel.
pub const FP_SCALE: u64 = 256;

/// Rounded-corner radius of a button's background box, in pixels.
pub const CORNER_RADIUS_PX: u16 = 8;

/// Left edge of cell `idx`, in fixed-point units (truncated).
pub open spec fn cell_left_fp(width: int, num: int, idx: int) -> int {
    idx * width * num * 256 / (num * num - 1)
}

/// Width of one button cell, in fixed-point units (truncated).
pub open spec fn button_width_fp(width: int, num: int) -> int {
    width * 256 / (num + 1)
}

/// Left edge of cell `idx`, in whole pixels (truncated).
pub open spec fn cell_left_px(width: int, num: int, idx: int) -> int {
    idx * width * num / (num * num - 1)
}

/// Width of one button cell, in whole pixels (truncated).
pub open spec fn button_width_px(width: int, num: int) -> int {
    width / (num + 1)
}

/// Bottom of the button band, in pixels from the strip's top in rotated
/// (surface) coordinates: 15% of the strip height.
pub open spec fn band_bottom_px(height: int) -> int {
    15 * height / 100
}

/// Top of the button band: 85% of the strip height.
pub open spec fn band_top_px(height: int) -> int {
    85 * height / 100
}

/// Whether `x` lies within the horizontal span of cell `idx`, stated over the
/// exact rational bounds: `left <= x <= left + button_width` scaled by the
/// common denominator `num * num - 1`.
pub open spec fn in_cell_span(num: int, idx: int, width: int, x: int) -> bool {
    &&& idx * num * width <= x * (num * num - 1)
    &&& x * (num * num - 1) <= (idx * num + num - 1) * width
}

/// Whether `y` lies strictly inside the vertical activation band: the middle
/// 82% of the strip height (a 9% dead margin at each edge).
pub open spec fn in_vertical_band(height: int, y: int) -> bool {
    100 * y > 9 * height && 100 * y < 91 * height
}

/// What `hit_test` decides: the point is in the cell's horizontal span and in
/// the vertical activation band.
pub open spec fn hit_spec(num: int, idx: int, width: int, height: int, x: int, y: int) -> bool {
    in_cell_span(num, idx, width, x) && in_vertical_band(height, y)
}

/// Both factors bounded bounds the product.
pub proof fn lemma_mul_le(a: int, b: int, ca: int, cb: int) by (nonlinear_arith)
    requires
        0 <= a <= ca,
        0 <= b <= cb,
    ensures
        0 <= a * b <= ca * cb,
{
}

/// Whether point `(x, y)` in strip coordinates falls within the horizontal
/// bounds of cell `idx` of `num` equal cells, and within the vertical
/// activation band of the strip.
pub fn hit_test(num: usize, idx: usize, width: u16, height: u16, x: u32, y: u32) -> (r: bool)
    requires
        2 <= num <= 0xFFFF,
        idx < num,
        x <= 0xFFFF,
    ensures
        r == hit_spec(num as int, idx as int, width as int, height as int, x as int, y as int),
{
    let n = num as u64;
    let w = width as u64;
    let i = idx as u64;
    proof {
        lemma_mul_le(n as int, n as int, 0xFFFF, 0xFFFF);
        lemma_mul_le(i as int, n as int, 0xFFFF, 0xFFFF);
        assert(4 <= (n as int) * (n as int)) by (nonlinear_arith)
            requires
                2 <= n,
        ;
    }
    let cells_sq = n * n - 1;
    proof {
        lemma_mul_le(x as int, cells_sq as int, 0xFFFF, 0xFFFFint * 0xFFFF);
    }
    let scaled_x = (x as u64) * cells_sq;
    let origin = i * n;
    proof {
        lemma_mul_le(origin as int, w as int, 0xFFFFint * 0xFFFF, 0xFFFF);
        lemma_mul_le(origin as int + n as int - 1, w as int, 0xFFFFint * 0xFFFF + 0xFFFF, 0xFFFF);
    }
    let horizontal = origin * w <= scaled_x && scaled_x <= (origin + n - 1) * w;
    let vertical = 100 * (y as u64) > 9 * (height as u64) && 100 * (y as u64) < 91 * (height
        as u64);
    horizontal && vertical
}

/// The cell index under a horizontal coordinate, by average cell pitch:
/// `x * num / width`, truncated. A result of `num` or more means the point is
/// past every cell's origin-candidate and hits nothing.
pub fn touch_candidate(num: usize, width: u16, x: u32) -> (r: usize)
    requires
        1 <= num <= 0xFFFF,
        0 < width,
        x <= width,
    ensures
        r == (x as int) * (num as int) / (width as int),
        r <= num,
{
    proof {
        assert((x as int) * (num as int) <= 0xFFFF * 0xFFFF) by (nonlinear_arith)
            requires
                0 <= x <= 0xFFFF,
                0 <= num <= 0xFFFF,
        ;
        assert((x as int) * (num as int) / (width as int) <= num as int) by (nonlinear_arith)
            requires
                0 <= x <= width,
                0 < width,
                0 <= num,
        ;
    }
    ((x as u64) * (num as u64) / (width as u64)) as usize
}

/// A hardware-framebuffer region to flush: rows x1..x2, columns y1..y2, in
/// framebuffer coordinates (the strip's surface is rotated 90 degrees
/// relative to these axes).
#[derive(Clone, Copy, PartialEq, Eq, Structural, Debug)]
pub struct ClipRect {
    pub x1: u16,
    pub y1: u16,
    pub x2: u16,
    pub y2: u16,
}

/// The clip rectangle covering the whole surface.
pub open spec fn full_clip(width: int, height: int) -> ClipRect {
    ClipRect { x1: 0, y1: 0, x2: height as u16, y2: width as u16 }
}

/// The clip rectangle of one repainted button: the band rows (extended by the
/// corner radius) translated back into framebuffer coordinates, and the cell's
/// horizontal span (three cells wide for the clock button).
pub open spec fn button_clip(width: int, height: int, num: int, idx: int, triple: bool) -> ClipRect {
    ClipRect {
        x1: (height - band_top_px(height) - CORNER_RADIUS_PX) as u16,
        y1: cell_left_px(width, num, idx) as u16,
        x2: (height - band_bottom_px(height) + CORNER_RADIUS_PX) as u16,
        y2: (cell_left_px(width, num, idx) + button_width_px(width, num) * (
        if triple {
            3int
        } else {
            1int
        })) as u16,
    }
}

/// Geometry preconditions shared by rendering: enough height for the band and
/// corner radius, and bounds that keep every clip coordinate within u16.
pub open spec fn geometry_wf(width: int, height: int, num: int) -> bool {
    &&& 2 <= num <= 0xFFFF
    &&& 54 <= height <= 65527
    &&& 0 < width <= 32767
}

/// The cell left edges are ordered and bounded by the strip width.
pub proof fn lemma_cell_left_px_bounds(width: int, num: int, idx: int)
    requires
        2 <= num,
        0 <= idx < num,
        0 < width,
    ensures
        0 <= cell_left_px(width, num, idx) <= width,
{
    let d = num * num - 1;
    assert(0 < num * num - 1 && 0 <= idx * width * num && idx * width * num <= width * (num * num
        - 1)) by (nonlinear_arith)
        requires
            2 <= num,
            0 <= idx < num,
            0 < width,
    ;
    lemma_div_pos_is_pos(idx * width * num, d);
    lemma_div_is_ordered(idx * width * num, width * d, d);
    lemma_div_by_multiple(width, d);
}

/// The fixed-point cell left edge is bounded by the scaled strip width.
pub proof fn lemma_cell_left_fp_bounds(width: int, num: int, idx: int)
    requires
        2 <= num,
        0 <= idx < num,
        0 < width,
    ensures
        0 <= cell_left_fp(width, num, idx) <= width * 256,
{
    let d = num * num - 1;
    assert(0 < num * num - 1 && 0 <= idx * width * num * 256 && idx * width * num * 256 <= (width
        * 256) * (num * num - 1)) by (nonlinear_arith)
        requires
            2 <= num,
            0 <= idx < num,
            0 < width,
    ;
    lemma_div_pos_is_pos(idx * width * num * 256, d);
    lemma_div_is_ordered(idx * width * num * 256, (width * 256) * d, d);
    lemma_div_by_multiple(width * 256, d);
}

/// Three button widths fit beside any cell's left edge: the widest clip's
/// right column is at most twice the strip width.
pub proof fn lemma_clip_right_bound(width: int, num: int, idx: int)
    requires
        2 <= num,
        0 <= idx < num,
        0 < width,
    ensures
        0 <= button_width_px(width, num),
        cell_left_px(width, num, idx) + button_width_px(width, num) * 3 <= 2 * width,
{
    lemma_cell_left_px_bounds(width, num, idx);
    lemma_div_pos_is_pos(width, num + 1);
    lemma_mul_div_le_three(width, num + 1);
    assert(3 * width <= width * (num + 1)) by (nonlinear_arith)
        requires
            2 <= num,
            0 < width,
    ;
    lemma_div_is_ordered(3 * width, width * (num + 1), num + 1);
    lemma_div_by_multiple(width, num + 1);
}

/// 3 * (w / d) <= (3 * w) / d for positive d.
proof fn lemma_mul_div_le_three(w: int, d: int)
    requires
        0 <= w,
        0 < d,
    ensures
        (w / d) * 3 <= (3 * w) / d,
{
    let q = w / d;
    lemma_div_pos_is_pos(w, d);
    vstd::arithmetic::div_mod::lemma_fundamental_div_mod(w, d);
    assert((3 * q) * d <= 3 * w) by (nonlinear_arith)
        requires
            w == d * q + w % d,
            0 <= w % d,
            0 < d,
    ;
    lemma_div_by_multiple(3 * q, d);
    lemma_div_is_ordered((3 * q) * d, 3 * w, d);
}

// --- hit-test characterization ---

/// Strict interior of a cell's horizontal span, over the exact rational
/// bounds.
pub open spec fn strictly_inside_cell(num: int, idx: int, width: int, x: int) -> bool {
    &&& idx * num * width < x * (num * num - 1)
    &&& x * (num * num - 1) < (idx * num + num - 1) * width
}

/// Strict interior of the gap between cell `idx` and cell `idx + 1`.
pub open spec fn strictly_in_gap(num: int, idx: int, width: int, x: int) -> bool {
    &&& (idx * num + num - 1) * width < x * (num * num - 1)
    &&& x * (num * num - 1) < (idx + 1) * num * width
}

/// Every touch point strictly inside a button's horizontal cell and within
/// the vertical activation band hits that button, for every button count
/// of at least two.
pub proof fn lemma_hit_inside(num: int, idx: int, width: int, height: int, x: int, y: int)
    requires
        2 <= num,
        0 <= idx < num,
        strictly_inside_cell(num, idx, width, x),
        in_vertical_band(height, y),
    ensures
        hit_spec(num, idx, width, height, x, y),
{
}

/// A touch point in the gap between two buttons, or outside the vertical
/// band, hits no button at all, for every button count of at least two.
pub proof fn lemma_hit_outside(num: int, idx: int, width: int, height: int, x: int, y: int)
    requires
        2 <= num,
        0 < width,
        (exists|g: int|
            0 <= g && g + 1 < num && strictly_in_gap(num, g, width, x)) || !in_vertical_band(
            height,
            y,
        ),
        0 <= idx < num,
    ensures
        !hit_spec(num, idx, width, height, x, y),
{
    if exists|g: int| 0 <= g && g + 1 < num && strictly_in_gap(num, g, width, x) {
        let g = choose|g: int| 0 <= g && g + 1 < num && strictly_in_gap(num, g, width, x);
        if idx <= g {
            assert((idx * num + num - 1) * width <= (g * num + num - 1) * width)
                by (nonlinear_arith)
                requires
                    idx <= g,
                    2 <= num,
                    0 < width,
            ;
            assert(!in_cell_span(num, idx, width, x));
        } else {
            assert((g + 1) * num * width <= idx * num * width) by (nonlinear_arith)
                requires
                    g + 1 <= idx,
                    2 <= num,
                    0 < width,
            ;
            assert(!in_cell_span(num, idx, width, x));
        }
    }
}

} // verus!
