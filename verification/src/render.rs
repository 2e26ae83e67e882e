//! The image synthesizer.
//!
//! Every pixel of the output grid is mapped through the viewport
//! transform to a plane point, evaluated under the reference iteration
//! cap and divergence radius, and colorized; the pixels are laid out
//! row-major. The buffer always holds exactly `width * height`
//! pixels, each pinned to `pixel_spec` of its coordinates.

use vstd::prelude::*;
use vstd::arithmetic::div_mod::{lemma_div_is_ordered, lemma_div_multiples_vanish};
use vstd::arithmetic::mul::lemma_mul_inequality;
use crate::fixed::{SCALE, tdiv};
use crate::escape::{Complex, escape_spec, evaluate};
use crate::palette::{Rgb, color_spec, colorize};
use crate::viewport::Viewport;

verus! {

/// Reference iteration cap of a render.
pub const DEFAULT_ITERATION_CAP: u32 = 1000;

/// Reference divergence radius of a render: two plane units.
pub const DEFAULT_DIVERGENCE_RADIUS: i64 = 2 * SCALE;

/// Plane abscissa of pixel column `px` of a `w`-column grid: the
/// column's fraction of the span, shifted so the visible square is
/// centred, as the viewport transform lays it out.
pub open spec fn plane_re(v: Viewport, px: int, w: int) -> int {
    tdiv(px * v.zoom, w) - (v.center_re + tdiv(v.zoom as int, 2))
}

/// Plane ordinate of pixel row `py` of an `h`-row grid; the axis is
/// inverted so an increasing row maps to a decreasing imaginary part.
pub open spec fn plane_im(v: Viewport, py: int, h: int) -> int {
    -(tdiv(py * v.zoom, h) - (v.center_im + tdiv(v.zoom as int, 2)))
}

/// The colour owed to pixel `(px, py)` of a `w` by `h` render of `v`.
pub open spec fn pixel_spec(v: Viewport, w: int, h: int, px: int, py: int) -> Rgb {
    color_spec(
        escape_spec(
            plane_re(v, px, w),
            plane_im(v, py, h),
            DEFAULT_DIVERGENCE_RADIUS * DEFAULT_DIVERGENCE_RADIUS,
            DEFAULT_ITERATION_CAP as nat,
        ),
    )
}

/// A dense row-major grid of colours, handed whole to the caller.
pub struct PixelBuffer {
    pub width: u32,
    pub height: u32,
    pub pixels: Vec<Rgb>,
}

proof fn lemma_row_major_index(qx: int, qy: int, w: int, rows: int)
    by (nonlinear_arith)
    requires
        0 <= qx < w,
        0 <= qy < rows,
    ensures
        0 <= qy * w + qx < rows * w,
{
}

impl PixelBuffer {
    /// The grid is dense: one colour per cell.
    pub open spec fn wf(self) -> bool {
        self.pixels@.len() == self.width * self.height
    }

    /// The colour stored at `(px, py)`.
    pub fn get(&self, px: u32, py: u32) -> (c: Rgb)
        requires
            self.wf(),
            px < self.width,
            py < self.height,
        ensures
            c == self.pixels@[py * self.width + px],
    {
        proof {
            lemma_row_major_index(px as int, py as int, self.width as int, self.height as int);
            assert(self.height * self.width == self.width * self.height) by (nonlinear_arith);
        }
        let len: usize = self.pixels.len();
        let idx: usize = (py as usize) * (self.width as usize) + (px as usize);
        assert(idx < len);
        self.pixels[idx]
    }
}

fn pixel_coord(v: Viewport, px: u32, py: u32, w: u32, h: u32) -> (c: Complex)
    requires
        v.wf(),
        px < w,
        py < h,
    ensures
        c.re == plane_re(v, px as int, w as int),
        c.im == plane_im(v, py as int, h as int),
        c.in_range(),
{
    let zoom_u: u64 = v.zoom as u64;
    proof {
        assert(0 <= (px as int) * (zoom_u as int) < 0x4000_0000_0000_0000 && 0 <= (py as int) * (
        zoom_u as int) < 0x4000_0000_0000_0000) by (nonlinear_arith)
            requires
                0 <= px < 0x1_0000_0000,
                0 <= py < 0x1_0000_0000,
                0 <= zoom_u <= 0x4000_0000,
        ;
        lemma_mul_inequality(px as int, w as int, v.zoom as int);
        lemma_div_is_ordered((px as int) * (v.zoom as int), (w as int) * (v.zoom as int), w as int);
        lemma_div_multiples_vanish(v.zoom as int, w as int);
        lemma_mul_inequality(py as int, h as int, v.zoom as int);
        lemma_div_is_ordered((py as int) * (v.zoom as int), (h as int) * (v.zoom as int), h as int);
        lemma_div_multiples_vanish(v.zoom as int, h as int);
    }
    let tx: u64 = (px as u64) * zoom_u / (w as u64);
    let ty: u64 = (py as u64) * zoom_u / (h as u64);
    let half: i64 = (zoom_u / 2) as i64;
    let re: i64 = (tx as i64) - (v.center_re + half);
    let im: i64 = -((ty as i64) - (v.center_im + half));
    Complex { re, im }
}

/// A full render of the viewport at the given output resolution: a
/// dense row-major buffer of exactly `out_width * out_height` pixels,
/// each the colour `pixel_spec` owes its coordinates.
pub fn render(viewport: Viewport, out_width: u32, out_height: u32) -> (buf: PixelBuffer)
    requires
        viewport.wf(),
    ensures
        buf.width == out_width,
        buf.height == out_height,
        buf.wf(),
        buf.pixels@.len() == out_width * out_height,
        forall|px: int, py: int|
            0 <= px < out_width && 0 <= py < out_height ==> buf.pixels@[py * out_width + px]
                == #[trigger] pixel_spec(viewport, out_width as int, out_height as int, px, py),
{
    let w: u32 = out_width;
    let h: u32 = out_height;
    let mut pixels: Vec<Rgb> = Vec::new();
    let mut py: u32 = 0;
    while py < h
        invariant
            viewport.wf(),
            py <= h,
            pixels@.len() == py * w,
            forall|qx: int, qy: int|
                0 <= qx < w && 0 <= qy < py ==> pixels@[qy * w + qx] == #[trigger] pixel_spec(
                    viewport,
                    w as int,
                    h as int,
                    qx,
                    qy,
                ),
        decreases h - py,
    {
        let mut px: u32 = 0;
        while px < w
            invariant
                viewport.wf(),
                px <= w,
                py < h,
                pixels@.len() == py * w + px,
                forall|qx: int, qy: int|
                    0 <= qx < w && 0 <= qy < py ==> pixels@[qy * w + qx] == #[trigger] pixel_spec(
                        viewport,
                        w as int,
                        h as int,
                        qx,
                        qy,
                    ),
                forall|qx: int|
                    0 <= qx < px ==> pixels@[py * w + qx] == #[trigger] pixel_spec(
                        viewport,
                        w as int,
                        h as int,
                        qx,
                        py as int,
                    ),
            decreases w - px,
        {
            let c: Complex = pixel_coord(viewport, px, py, w, h);
            let res = evaluate(c, DEFAULT_ITERATION_CAP, DEFAULT_DIVERGENCE_RADIUS);
            let col: Rgb = colorize(res);
            pixels.push(col);
            proof {
                assert(col == pixel_spec(viewport, w as int, h as int, px as int, py as int));
                assert forall|qx: int, qy: int| 0 <= qx < w && 0 <= qy < py implies pixels@[qy * w
                    + qx] == #[trigger] pixel_spec(viewport, w as int, h as int, qx, qy) by {
                    lemma_row_major_index(qx, qy, w as int, py as int);
                }
            }
            px = px + 1;
        }
        proof {
            assert((py + 1) * w == py * w + w) by (nonlinear_arith);
        }
        py = py + 1;
    }
    proof {
        assert(h * w == w * h) by (nonlinear_arith);
    }
    PixelBuffer { width: w, height: h, pixels }
}

} // verus!
