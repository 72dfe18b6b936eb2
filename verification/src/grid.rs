//! The in-memory pixel model: a dense, row-major grid of 8-bit channels,
//! either three channels per pixel (opaque) or four (with alpha).

use vstd::prelude::*;

verus! {

/// An opaque RGB color, used as the background a translucent image is
/// flattened onto.
#[derive(Clone, Copy, PartialEq, Eq, Structural, Debug)]
pub struct Color {
    pub r: u8,
    pub g: u8,
    pub b: u8,
}

impl Color {
    /// Opaque white, the background this system composites against.
    pub fn white() -> (c: Color)
        ensures
            c == (Color { r: 255, g: 255, b: 255 }),
    {
        Color { r: 255, g: 255, b: 255 }
    }
}

/// The mathematical model of a pixel grid: dimensions, whether an alpha
/// channel is present, and the channel bytes in row-major order.
pub struct GridView {
    pub width: nat,
    pub height: nat,
    pub alpha: bool,
    pub pixels: Seq<u8>,
}

/// Bytes per pixel: four with an alpha channel, three without.
pub open spec fn channel_count(alpha: bool) -> nat {
    if alpha {
        4
    } else {
        3
    }
}

impl GridView {
    /// A well-formed grid has positive dimensions and exactly one byte per
    /// channel of every pixel.
    pub open spec fn wf(self) -> bool {
        &&& self.width > 0
        &&& self.height > 0
        &&& self.pixels.len() == self.width * self.height * channel_count(self.alpha)
    }

    /// The longer of the two dimensions, the one the downscale bound caps.
    pub open spec fn max_side(self) -> nat {
        if self.width >= self.height {
            self.width
        } else {
            self.height
        }
    }
}

/// A decoded image: width and height in pixels, whether the pixel data
/// carries an alpha channel, and the dense channel bytes in row-major order
/// (four bytes per pixel with alpha, three without).
pub struct PixelGrid {
    pub width: u32,
    pub height: u32,
    pub alpha: bool,
    pub pixels: Vec<u8>,
}

impl View for PixelGrid {
    type V = GridView;

    open spec fn view(&self) -> GridView {
        GridView {
            width: self.width as nat,
            height: self.height as nat,
            alpha: self.alpha,
            pixels: self.pixels@,
        }
    }
}

impl PixelGrid {
    /// Well-formedness of the executable grid is that of its model.
    pub open spec fn wf(self) -> bool {
        self@.wf()
    }
}

} // verus!
