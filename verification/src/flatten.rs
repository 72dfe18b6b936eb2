//! The compositor: flattens a grid that carries an alpha channel onto an
//! opaque background by standard alpha blending, yielding an alpha-free grid
//! of identical dimensions. A grid without alpha passes through unchanged.

use vstd::prelude::*;
use vstd::arithmetic::div_mod::lemma_div_multiples_vanish_fancy;
use vstd::arithmetic::div_mod::lemma_fundamental_div_mod;
use crate::grid::{Color, GridView, PixelGrid, channel_count};

verus! {

/// One channel of alpha blending over an opaque background, rounded to the
/// nearest integer: out = round((src * a + bg * (255 - a)) / 255).
pub open spec fn blend(src: u8, a: u8, bg: u8) -> u8 {
    ((src * a + bg * (255 - a) + 127) / 255) as u8
}

/// The background channel that the j-th output channel of a pixel blends
/// against: red, green, then blue.
pub open spec fn bg_channel(bg: Color, k: int) -> u8 {
    if k == 0 {
        bg.r
    } else if k == 1 {
        bg.g
    } else {
        bg.b
    }
}

/// Flattened channel bytes: the grid's four-channel pixels blended over the
/// background, three channels per pixel, alpha discarded.
pub open spec fn flatten_pixels(s: Seq<u8>, bg: Color) -> Seq<u8> {
    Seq::new(
        (s.len() / 4) * 3,
        |j: int| blend(s[4 * (j / 3) + (j % 3)], s[4 * (j / 3) + 3], bg_channel(bg, j % 3)),
    )
}

/// The compositor's effect on the model: identity on an alpha-free grid,
/// otherwise the flattened bytes under the same dimensions, alpha discarded.
pub open spec fn flatten_view(g: GridView, bg: Color) -> GridView {
    if !g.alpha {
        g
    } else {
        GridView { width: g.width, height: g.height, alpha: false, pixels: flatten_pixels(g.pixels, bg) }
    }
}

/// Law: blending extremes. A fully transparent channel takes the background
/// exactly; a fully opaque channel keeps its source value exactly; and a
/// half-transparent black channel over white lands next to the midpoint.
pub proof fn lemma_blend_extremes(src: u8, bg: u8)
    ensures
        blend(src, 0, bg) == bg,
        blend(src, 255, bg) == src,
        blend(0, 128, 255) == 127,
{
    lemma_div_multiples_vanish_fancy(bg as int, 127, 255);
    lemma_div_multiples_vanish_fancy(src as int, 127, 255);
    assert(src * 0 + bg * (255 - 0) + 127 == 255 * (bg as int) + 127);
    assert(src * 255 + bg * (255 - 255) + 127 == 255 * (src as int) + 127);
    assert((0 * 128 + 255 * (255 - 128) + 127) / 255 == 127);
}

fn blend_channel(src: u8, a: u8, bg: u8) -> (r: u8)
    ensures
        r == blend(src, a, bg),
{
    proof {
        assert(src * a + bg * (255 - a) <= 65025) by (nonlinear_arith)
            requires
                src <= 255,
                a <= 255,
                bg <= 255,
        ;
    }
    let v: u32 = (src as u32) * (a as u32) + (bg as u32) * (255 - a as u32) + 127;
    (v / 255) as u8
}

impl PixelGrid {
    /// Flattens this grid onto the opaque background `bg`: every pixel of an
    /// alpha-carrying grid is alpha-blended over the background and the alpha
    /// channel is discarded; a grid without alpha is returned unchanged. The
    /// result always has the input's dimensions and no alpha channel.
    pub fn flatten(self, bg: Color) -> (r: PixelGrid)
        requires
            self.wf(),
        ensures
            r.wf(),
            r@ == flatten_view(self@, bg),
            r@.width == self@.width,
            r@.height == self@.height,
            !r@.alpha,
    {
        if !self.alpha {
            return self;
        }
        let ghost target = flatten_pixels(self@.pixels, bg);
        let ghost pc = self@.width * self@.height;
        proof {
            assert(self@.pixels.len() == pc * 4);
            assert(pc * 4 == 4 * pc) by (nonlinear_arith);
            assert((4 * pc) / 4 == pc) by {
                lemma_div_multiples_vanish_fancy(pc as int, 0, 4);
            }
        }
        let n: usize = self.pixels.len() / 4;
        let mut out: Vec<u8> = Vec::new();
        let mut i: usize = 0;
        while i < n
            invariant
                i <= n,
                n == pc,
                4 * n == self.pixels.len(),
                target == flatten_pixels(self@.pixels, bg),
                target.len() == 3 * n,
                out@.len() == 3 * i,
                forall|j: int| 0 <= j < out@.len() ==> out@[j] == target[j],
            decreases n - i,
        {
            let base: usize = 4 * i;
            let a = self.pixels[base + 3];
            proof {
                lemma_channel_indices(self@.pixels, i as int);
            }
            out.push(blend_channel(self.pixels[base], a, bg.r));
            out.push(blend_channel(self.pixels[base + 1], a, bg.g));
            out.push(blend_channel(self.pixels[base + 2], a, bg.b));
            i = i + 1;
        }
        proof {
            assert(out@ =~= target);
            assert(pc * 3 == 3 * pc) by (nonlinear_arith);
        }
        PixelGrid { width: self.width, height: self.height, alpha: false, pixels: out }
    }
}

/// The three output channels of pixel `p` of the flattened bytes are the
/// pixel's three source channels blended against its own alpha byte.
proof fn lemma_channel_indices(s: Seq<u8>, p: int)
    requires
        0 <= p,
        4 * p + 3 < s.len(),
    ensures
        3 * p + 2 < flatten_pixels_len(s),
        flatten_pixels_index(s, 3 * p) == (4 * p, 4 * p + 3),
        flatten_pixels_index(s, 3 * p + 1) == (4 * p + 1, 4 * p + 3),
        flatten_pixels_index(s, 3 * p + 2) == (4 * p + 2, 4 * p + 3),
{
    lemma_div_is_ordered_times_four(p, s.len() as int);
    lemma_div_multiples_vanish_fancy(p, 0, 3);
    lemma_fundamental_div_mod(3 * p, 3);
    lemma_div_multiples_vanish_fancy(p, 1, 3);
    lemma_fundamental_div_mod(3 * p + 1, 3);
    lemma_div_multiples_vanish_fancy(p, 2, 3);
    lemma_fundamental_div_mod(3 * p + 2, 3);
}

/// The length of the flattened byte sequence.
spec fn flatten_pixels_len(s: Seq<u8>) -> nat {
    (s.len() / 4) * 3
}

/// Which source indices (channel, alpha) the j-th flattened byte reads.
spec fn flatten_pixels_index(s: Seq<u8>, j: int) -> (int, int) {
    (4 * (j / 3) + (j % 3), 4 * (j / 3) + 3)
}

/// From 4p + 3 < len it follows that p < len / 4.
proof fn lemma_div_is_ordered_times_four(p: int, len: int)
    requires
        0 <= p,
        4 * p + 3 < len,
    ensures
        p + 1 <= len / 4,
        3 * p + 2 < (len / 4) * 3,
{
    assert((4 * (p + 1)) / 4 == p + 1) by {
        lemma_div_multiples_vanish_fancy(p + 1, 0, 4);
    }
    assert((4 * (p + 1)) / 4 <= len / 4) by {
        vstd::arithmetic::div_mod::lemma_div_is_ordered(4 * (p + 1), len, 4);
    }
}

/// Law: per-pixel flattening correctness. For any pixel of an alpha grid, a
/// fully transparent pixel flattens to exactly the background color, and a
/// fully opaque pixel keeps its three source channels unchanged.
pub proof fn lemma_flatten_pixel(s: Seq<u8>, bg: Color, p: int)
    requires
        0 <= p,
        4 * p + 3 < s.len(),
    ensures
        s[4 * p + 3] == 0 ==> flatten_pixels(s, bg)[3 * p] == bg.r
            && flatten_pixels(s, bg)[3 * p + 1] == bg.g
            && flatten_pixels(s, bg)[3 * p + 2] == bg.b,
        s[4 * p + 3] == 255 ==> flatten_pixels(s, bg)[3 * p] == s[4 * p]
            && flatten_pixels(s, bg)[3 * p + 1] == s[4 * p + 1]
            && flatten_pixels(s, bg)[3 * p + 2] == s[4 * p + 2],
{
    lemma_channel_indices(s, p);
    lemma_blend_extremes(s[4 * p], bg.r);
    lemma_blend_extremes(s[4 * p + 1], bg.g);
    lemma_blend_extremes(s[4 * p + 2], bg.b);
}

} // verus!
