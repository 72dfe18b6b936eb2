//! The decoder and encoder stages. Both lean on the `image` crate behind
//! trusted wrappers: decoding sniffs the format from the bytes themselves and
//! yields a pixel grid; encoding serializes a grid as baseline JPEG or WebP.

use vstd::prelude::*;
use crate::grid::{GridView, PixelGrid, channel_count};

verus! {

/// Decoding failed: the bytes were not recognized as any supported image
/// format, or the bitstream was truncated or corrupt.
#[derive(Clone, Copy, PartialEq, Eq, Structural, Debug)]
pub struct DecodeError;

/// Encoding failed: the prepared pixel grid could not be serialized into the
/// target format.
#[derive(Clone, Copy, PartialEq, Eq, Structural, Debug)]
pub struct EncodeError;

/// The target output format of the pipeline.
#[derive(Clone, Copy, PartialEq, Eq, Structural, Debug)]
pub enum Target {
    Jpeg,
    Webp,
}

/// What `image::load_from_memory` makes of a byte buffer: `None` when the
/// bytes are rejected, otherwise the decoded grid (with alpha kept as four
/// RGBA bytes per pixel, without as three RGB bytes). A pure function of the
/// bytes alone.
pub uninterp spec fn decoded_grid(bytes: Seq<u8>) -> Option<GridView>;

/// Relies on image::load_from_memory: format sniffing and decoding are
/// deterministic in the input bytes; a decoded buffer holds exactly width ×
/// height × channels bytes (an ImageBuffer invariant); and the loader's
/// 512 MiB allocation limit, checked against at least one byte per pixel,
/// caps width × height at 2^29.
#[verifier::external_body]
fn decode_bytes(bytes: &Vec<u8>) -> (r: Option<PixelGrid>)
    ensures
        r is Some <==> decoded_grid(bytes@) is Some,
        r is Some ==> {
            let g = decoded_grid(bytes@).unwrap();
            &&& r.unwrap()@ == g
            &&& g.pixels.len() == g.width * g.height * channel_count(g.alpha)
            &&& g.width * g.height <= 0x2000_0000
        },
{
    match image::load_from_memory(bytes) {
        Ok(img) => {
            let (width, height) = (img.width(), img.height());
            let alpha = img.color().has_alpha();
            let pixels = if alpha { img.to_rgba8().into_raw() } else { img.to_rgb8().into_raw() };
            Some(PixelGrid { width, height, alpha, pixels })
        },
        Err(_) => None,
    }
}

/// The bytes decode to a usable grid: recognized by the decoder, with
/// positive dimensions.
pub open spec fn decode_accepts(bytes: Seq<u8>) -> bool {
    &&& decoded_grid(bytes) is Some
    &&& decoded_grid(bytes).unwrap().width > 0
    &&& decoded_grid(bytes).unwrap().height > 0
}

/// Decodes an encoded image into a pixel grid, sniffing the format from the
/// byte content. Succeeds exactly on byte buffers the decoder recognizes as a
/// supported format with positive dimensions; no partial grid is ever
/// returned.
pub fn decode(bytes: &Vec<u8>) -> (r: Result<PixelGrid, DecodeError>)
    ensures
        r is Ok <==> decode_accepts(bytes@),
        r is Ok ==> {
            &&& r.unwrap().wf()
            &&& r.unwrap()@ == decoded_grid(bytes@).unwrap()
            &&& 4 * r.unwrap()@.width * r.unwrap()@.height <= usize::MAX
        },
        r is Err ==> r == Err::<PixelGrid, DecodeError>(DecodeError),
{
    match decode_bytes(bytes) {
        Some(g) => {
            if g.width >= 1 && g.height >= 1 {
                proof {
                    assert(4 * g@.width * g@.height <= 0x8000_0000) by (nonlinear_arith)
                        requires
                            g@.width * g@.height <= 0x2000_0000,
                    ;
                }
                Ok(g)
            } else {
                Err(DecodeError)
            }
        },
        None => Err(DecodeError),
    }
}

/// What serializing an RGB grid as baseline JPEG (at the system's fixed
/// default quality) returns: `None` when the encoder refuses the grid,
/// otherwise the encoded bytes. A pure function of the grid alone.
pub uninterp spec fn jpeg_encoding(pixels: Seq<u8>, w: int, h: int) -> Option<Seq<u8>>;

/// What serializing an RGB grid as WebP returns. A pure function of the grid
/// alone.
pub uninterp spec fn webp_rgb_encoding(pixels: Seq<u8>, w: int, h: int) -> Option<Seq<u8>>;

/// What serializing an RGBA grid as WebP returns. A pure function of the grid
/// alone.
pub uninterp spec fn webp_rgba_encoding(pixels: Seq<u8>, w: int, h: int) -> Option<Seq<u8>>;

/// Relies on DynamicImage::write_to with ImageFormat::Jpeg on an RGB buffer:
/// a deterministic baseline JPEG serialization at the crate's default
/// quality; it returns an error (never a partial buffer) when the encoder
/// refuses the grid.
#[verifier::external_body]
fn encode_jpeg_bytes(pixels: Vec<u8>, w: u32, h: u32) -> (r: Option<Vec<u8>>)
    requires
        pixels@.len() == w * h * 3,
        1 <= w,
        1 <= h,
    ensures
        r is Some <==> jpeg_encoding(pixels@, w as int, h as int) is Some,
        r is Some ==> r.unwrap()@ == jpeg_encoding(pixels@, w as int, h as int).unwrap(),
{
    let buf: image::RgbImage = image::ImageBuffer::from_raw(w, h, pixels).unwrap();
    let img = image::DynamicImage::ImageRgb8(buf);
    let mut cursor = std::io::Cursor::new(Vec::new());
    match img.write_to(&mut cursor, image::ImageFormat::Jpeg) {
        Ok(()) => Some(cursor.into_inner()),
        Err(_) => None,
    }
}

/// Relies on DynamicImage::write_to with ImageFormat::WebP on an RGB buffer:
/// a deterministic WebP serialization; it returns an error (never a partial
/// buffer) when the encoder refuses the grid.
#[verifier::external_body]
fn encode_webp_rgb_bytes(pixels: Vec<u8>, w: u32, h: u32) -> (r: Option<Vec<u8>>)
    requires
        pixels@.len() == w * h * 3,
        1 <= w,
        1 <= h,
    ensures
        r is Some <==> webp_rgb_encoding(pixels@, w as int, h as int) is Some,
        r is Some ==> r.unwrap()@ == webp_rgb_encoding(pixels@, w as int, h as int).unwrap(),
{
    let buf: image::RgbImage = image::ImageBuffer::from_raw(w, h, pixels).unwrap();
    let img = image::DynamicImage::ImageRgb8(buf);
    let mut cursor = std::io::Cursor::new(Vec::new());
    match img.write_to(&mut cursor, image::ImageFormat::WebP) {
        Ok(()) => Some(cursor.into_inner()),
        Err(_) => None,
    }
}

/// Relies on DynamicImage::write_to with ImageFormat::WebP on an RGBA buffer:
/// a deterministic WebP serialization that keeps the alpha channel; it
/// returns an error (never a partial buffer) when the encoder refuses the
/// grid.
#[verifier::external_body]
fn encode_webp_rgba_bytes(pixels: Vec<u8>, w: u32, h: u32) -> (r: Option<Vec<u8>>)
    requires
        pixels@.len() == w * h * 4,
        1 <= w,
        1 <= h,
    ensures
        r is Some <==> webp_rgba_encoding(pixels@, w as int, h as int) is Some,
        r is Some ==> r.unwrap()@ == webp_rgba_encoding(pixels@, w as int, h as int).unwrap(),
{
    let buf: image::RgbaImage = image::ImageBuffer::from_raw(w, h, pixels).unwrap();
    let img = image::DynamicImage::ImageRgba8(buf);
    let mut cursor = std::io::Cursor::new(Vec::new());
    match img.write_to(&mut cursor, image::ImageFormat::WebP) {
        Ok(()) => Some(cursor.into_inner()),
        Err(_) => None,
    }
}

/// What encoding a grid toward a target yields: the JPEG bytes of the RGB
/// grid, or the WebP bytes of the grid in its own channel layout.
pub open spec fn encoding_model(g: GridView, target: Target) -> Option<Seq<u8>> {
    match target {
        Target::Jpeg => jpeg_encoding(g.pixels, g.width as int, g.height as int),
        Target::Webp => if g.alpha {
            webp_rgba_encoding(g.pixels, g.width as int, g.height as int)
        } else {
            webp_rgb_encoding(g.pixels, g.width as int, g.height as int)
        },
    }
}

/// The model of an encoded artifact: the output bytes and the format they
/// were encoded toward.
pub struct EncodedView {
    pub bytes: Seq<u8>,
    pub target: Target,
}

/// The terminal artifact of the pipeline: an encoded byte buffer tagged with
/// the format it was encoded toward.
#[derive(Debug)]
pub struct EncodedResult {
    pub bytes: Vec<u8>,
    pub target: Target,
}

impl View for EncodedResult {
    type V = EncodedView;

    open spec fn view(&self) -> EncodedView {
        EncodedView { bytes: self.bytes@, target: self.target }
    }
}

impl EncodedResult {
    /// The media type matching the artifact's format tag.
    pub fn media_type(&self) -> (r: &'static str)
        ensures
            self.target is Jpeg ==> r@ == "image/jpeg"@,
            self.target is Webp ==> r@ == "image/webp"@,
    {
        match self.target {
            Target::Jpeg => "image/jpeg",
            Target::Webp => "image/webp",
        }
    }
}

/// Serializes a fully prepared grid into the target format. The grid must be
/// alpha-free for the JPEG target; WebP takes either layout. Succeeds exactly
/// when the underlying encoder accepts the grid, and then returns its bytes
/// tagged with the target; no partial output is ever returned.
pub fn encode(grid: PixelGrid, target: Target) -> (r: Result<EncodedResult, EncodeError>)
    requires
        grid.wf(),
        target is Jpeg ==> !grid@.alpha,
    ensures
        r is Ok <==> encoding_model(grid@, target) is Some,
        r is Ok ==> {
            &&& r.unwrap()@.bytes == encoding_model(grid@, target).unwrap()
            &&& r.unwrap().target == target
        },
        r is Err ==> r == Err::<EncodedResult, EncodeError>(EncodeError),
{
    let encoded = match target {
        Target::Jpeg => encode_jpeg_bytes(grid.pixels, grid.width, grid.height),
        Target::Webp => {
            if grid.alpha {
                encode_webp_rgba_bytes(grid.pixels, grid.width, grid.height)
            } else {
                encode_webp_rgb_bytes(grid.pixels, grid.width, grid.height)
            }
        },
    };
    match encoded {
        Some(bytes) => Ok(EncodedResult { bytes, target }),
        None => Err(EncodeError),
    }
}

} // verus!
