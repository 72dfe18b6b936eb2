//! The resampler: downscales a grid so that neither dimension exceeds a
//! bound, preserving aspect ratio and never upscaling; a grid already within
//! the bound passes through unchanged.

use vstd::prelude::*;
use vstd::arithmetic::div_mod::lemma_div_is_ordered;
use vstd::arithmetic::div_mod::lemma_div_multiples_vanish_fancy;
use crate::grid::{GridView, PixelGrid, channel_count};

verus! {

/// The dimensions after downscaling an out-of-bounds grid: the longer side
/// becomes exactly `md`, the shorter side is scaled by the same factor and
/// rounded to the nearest integer (never below one pixel).
pub open spec fn scale_dims(w: int, h: int, md: int) -> (int, int)
    recommends
        1 <= w,
        1 <= h,
        1 <= md,
{
    if w >= h {
        let s = (h * md + w / 2) / w;
        (md, if s < 1 { 1 } else { s })
    } else {
        let s = (w * md + h / 2) / h;
        (if s < 1 { 1 } else { s }, md)
    }
}

/// The scaled short side is bounded by the bound and by its own original
/// length: rounding h * md / b to the nearest integer, where h is the short
/// side and b the long one, never exceeds md or h.
proof fn lemma_short_side_bounds(h: int, b: int, md: int)
    requires
        1 <= h <= b,
        1 <= md < b,
    ensures
        0 <= (h * md + b / 2) / b,
        (h * md + b / 2) / b <= md,
        (h * md + b / 2) / b <= h,
{
    assert(h * md + b / 2 <= b * md + (b - 1)) by (nonlinear_arith)
        requires
            1 <= h <= b,
            1 <= md < b,
    ;
    assert(h * md + b / 2 <= b * h + (b - 1)) by (nonlinear_arith)
        requires
            1 <= h <= b,
            1 <= md < b,
    ;
    lemma_div_is_ordered(h * md + b / 2, b * md + (b - 1), b);
    lemma_div_is_ordered(h * md + b / 2, b * h + (b - 1), b);
    lemma_div_multiples_vanish_fancy(md, b - 1, b);
    lemma_div_multiples_vanish_fancy(h, b - 1, b);
    assert(0 <= h * md) by (nonlinear_arith)
        requires
            1 <= h,
            1 <= md,
    ;
    lemma_div_is_ordered(0, h * md + b / 2, b);
}

/// Law: aspect preservation. For a landscape grid wider than the bound, the
/// scaled width is exactly the bound and the scaled height is the original
/// height times the scale factor md / w, rounded to the nearest integer
/// (ties upward) — provided that rounding does not fall below one pixel,
/// which `2 * h * md >= w` rules out.
pub proof fn lemma_aspect_preserved(w: int, h: int, md: int)
    requires
        1 <= h < w,
        1 <= md < w,
        2 * h * md >= w,
    ensures
        scale_dims(w, h, md).0 == md,
        scale_dims(w, h, md).1 == (h * md + w / 2) / w,
        w % 2 == 0 ==> scale_dims(w, h, md).1 == (2 * h * md + w) / (2 * w),
{
    assert(2 * (h * md) >= w) by (nonlinear_arith)
        requires
            2 * h * md >= w,
    ;
    assert(h * md + w / 2 >= w);
    lemma_div_is_ordered(w, h * md + w / 2, w);
    assert(w / w == 1) by {
        lemma_div_multiples_vanish_fancy(1, 0, w);
    }
    if w % 2 == 0 {
        vstd::arithmetic::div_mod::lemma_div_multiples_vanish_quotient(
            2,
            h * md + w / 2,
            w,
        );
        assert(2 * (h * md + w / 2) == 2 * h * md + w) by (nonlinear_arith)
            requires
                w % 2 == 0,
                w >= 1,
        ;
    }
}

/// Computes `scale_dims` on machine integers.
fn scaled_dimensions(w: u32, h: u32, md: u32) -> (r: (u32, u32))
    requires
        1 <= w,
        1 <= h,
        1 <= md,
        w > md || h > md,
    ensures
        (r.0 as int, r.1 as int) == scale_dims(w as int, h as int, md as int),
        1 <= r.0 <= md,
        1 <= r.1 <= md,
        r.0 <= w,
        r.1 <= h,
{
    proof {
        assert((h as int) * (md as int) + (w as int) / 2 <= u64::MAX
            && (w as int) * (md as int) + (h as int) / 2 <= u64::MAX) by (nonlinear_arith)
            requires
                w <= u32::MAX,
                h <= u32::MAX,
                md <= u32::MAX,
        ;
    }
    if w >= h {
        proof {
            lemma_short_side_bounds(h as int, w as int, md as int);
        }
        let s: u64 = ((h as u64) * (md as u64) + (w as u64) / 2) / (w as u64);
        let s32: u32 = s as u32;
        (md, if s32 < 1 { 1 } else { s32 })
    } else {
        proof {
            lemma_short_side_bounds(w as int, h as int, md as int);
        }
        let s: u64 = ((w as u64) * (md as u64) + (h as u64) / 2) / (h as u64);
        let s32: u32 = s as u32;
        (if s32 < 1 { 1 } else { s32 }, md)
    }
}

/// What `image::imageops::resize` with triangle filtering returns on an RGB
/// buffer: a pure function of the pixel bytes and the old and new dimensions.
pub uninterp spec fn resampled_rgb(pixels: Seq<u8>, w: int, h: int, nw: int, nh: int) -> Seq<u8>;

/// What `image::imageops::resize` with triangle filtering returns on an RGBA
/// buffer: a pure function of the pixel bytes and the old and new dimensions.
pub uninterp spec fn resampled_rgba(pixels: Seq<u8>, w: int, h: int, nw: int, nh: int) -> Seq<u8>;

/// Relies on image::imageops::resize with FilterType::Triangle on an RGB
/// buffer: a deterministic smoothing resample whose output buffer has exactly
/// the requested dimensions, three bytes per pixel.
#[verifier::external_body]
fn resample_rgb_bytes(pixels: &Vec<u8>, w: u32, h: u32, nw: u32, nh: u32) -> (r: Vec<u8>)
    requires
        pixels@.len() == w * h * 3,
        1 <= w,
        1 <= h,
        1 <= nw,
        1 <= nh,
        4 * (w as int) * (nh as int) <= usize::MAX,
        4 * (nw as int) * (nh as int) <= usize::MAX,
    ensures
        r@ == resampled_rgb(pixels@, w as int, h as int, nw as int, nh as int),
        r@.len() == nw * nh * 3,
{
    let buf: image::RgbImage = image::ImageBuffer::from_raw(w, h, pixels.clone()).unwrap();
    image::imageops::resize(&buf, nw, nh, image::imageops::FilterType::Triangle).into_raw()
}

/// Relies on image::imageops::resize with FilterType::Triangle on an RGBA
/// buffer: a deterministic smoothing resample whose output buffer has exactly
/// the requested dimensions, four bytes per pixel.
#[verifier::external_body]
fn resample_rgba_bytes(pixels: &Vec<u8>, w: u32, h: u32, nw: u32, nh: u32) -> (r: Vec<u8>)
    requires
        pixels@.len() == w * h * 4,
        1 <= w,
        1 <= h,
        1 <= nw,
        1 <= nh,
        4 * (w as int) * (nh as int) <= usize::MAX,
        4 * (nw as int) * (nh as int) <= usize::MAX,
    ensures
        r@ == resampled_rgba(pixels@, w as int, h as int, nw as int, nh as int),
        r@.len() == nw * nh * 4,
{
    let buf: image::RgbaImage = image::ImageBuffer::from_raw(w, h, pixels.clone()).unwrap();
    image::imageops::resize(&buf, nw, nh, image::imageops::FilterType::Triangle).into_raw()
}

/// The resampler's effect on the model: identity on a grid already within the
/// bound, otherwise the resampled bytes under the scaled dimensions, with the
/// alpha channel's presence unchanged.
pub open spec fn scaled_view(g: GridView, md: int) -> GridView {
    if g.width <= md && g.height <= md {
        g
    } else {
        let dims = scale_dims(g.width as int, g.height as int, md);
        GridView {
            width: dims.0 as nat,
            height: dims.1 as nat,
            alpha: g.alpha,
            pixels: if g.alpha {
                resampled_rgba(g.pixels, g.width as int, g.height as int, dims.0, dims.1)
            } else {
                resampled_rgb(g.pixels, g.width as int, g.height as int, dims.0, dims.1)
            },
        }
    }
}

impl PixelGrid {
    /// Downscales this grid so that neither dimension exceeds `max_dim`,
    /// preserving aspect ratio. A grid already within the bound is returned
    /// unchanged — identical dimensions and identical pixel content — so the
    /// resampler never upscales: neither output dimension ever exceeds its
    /// input counterpart. The grid must be small enough that the length of
    /// the resampler's four-byte-per-pixel working buffer fits in `usize`,
    /// which every decoded grid satisfies.
    pub fn bound(self, max_dim: u32) -> (r: PixelGrid)
        requires
            self.wf(),
            max_dim >= 1,
            4 * self@.width * self@.height <= usize::MAX,
        ensures
            r.wf(),
            r@ == scaled_view(self@, max_dim as int),
            self@.width <= max_dim && self@.height <= max_dim ==> r == self,
            r@.width <= max_dim,
            r@.height <= max_dim,
            r@.width <= self@.width,
            r@.height <= self@.height,
            r@.alpha == self@.alpha,
    {
        if self.width <= max_dim && self.height <= max_dim {
            return self;
        }
        let (nw, nh) = scaled_dimensions(self.width, self.height, max_dim);
        proof {
            lemma_resample_args_fit(self@.width as int, self@.height as int, nw as int, nh as int);
        }
        let pixels = if self.alpha {
            resample_rgba_bytes(&self.pixels, self.width, self.height, nw, nh)
        } else {
            resample_rgb_bytes(&self.pixels, self.width, self.height, nw, nh)
        };
        PixelGrid { width: nw, height: nh, alpha: self.alpha, pixels }
    }
}

/// Since the scaled dimensions never exceed the originals, the resampler's
/// buffers fit wherever four bytes per original pixel fit.
proof fn lemma_resample_args_fit(w: int, h: int, nw: int, nh: int)
    requires
        1 <= nw <= w,
        1 <= nh <= h,
        4 * w * h <= usize::MAX,
    ensures
        4 * w * nh <= usize::MAX,
        4 * nw * nh <= usize::MAX,
{
    assert(4 * w * nh <= 4 * w * h && 4 * nw * nh <= 4 * w * h) by (nonlinear_arith)
        requires
            1 <= nw <= w,
            1 <= nh <= h,
    ;
}

} // verus!
