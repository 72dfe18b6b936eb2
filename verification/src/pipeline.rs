//! The orchestrated pipeline: decode, flatten (JPEG path only), downscale,
//! encode. Each stage either hands a fully valid artifact forward or aborts
//! the whole run with a classified failure; there are no partial results.

use vstd::prelude::*;
use crate::codec::{
    EncodedResult, EncodedView, Target, decode, decode_accepts, decoded_grid, encoding_model,
};
use crate::flatten::flatten_view;
use crate::grid::{Color, GridView};
use crate::resample::scaled_view;

verus! {

/// The downscale bound of this system: neither output dimension exceeds it.
pub const DEFAULT_BOUND: u32 = 1024;

/// A classified pipeline failure.
#[derive(Clone, Copy, PartialEq, Eq, Structural, Debug)]
pub enum PipelineError {
    /// No bytes were supplied; a caller-responsibility precondition.
    EmptyInput,
    /// The bytes were not recognized or parsed as any supported image format.
    DecodeFailed,
    /// The prepared grid could not be serialized into the target format.
    EncodeFailed,
}

impl PipelineError {
    /// A short diagnostic message for transport layers to surface.
    pub fn message(&self) -> (r: &'static str)
        ensures
            *self is EmptyInput ==> r@ == "No data"@,
            *self is DecodeFailed ==> r@ == "Decode error"@,
            *self is EncodeFailed ==> r@ == "Encode error"@,
    {
        match self {
            PipelineError::EmptyInput => "No data",
            PipelineError::DecodeFailed => "Decode error",
            PipelineError::EncodeFailed => "Encode error",
        }
    }
}

/// The pipeline's process-wide configuration: the downscale bound and the
/// background that translucent images are flattened onto.
#[derive(Clone, Copy, PartialEq, Eq, Structural, Debug)]
pub struct Config {
    pub max_dim: u32,
    pub background: Color,
}

impl Config {
    /// This system's standard configuration: bound 1024, opaque white
    /// background.
    pub fn standard() -> (c: Config)
        ensures
            c.max_dim == DEFAULT_BOUND,
            c.background == (Color { r: 255, g: 255, b: 255 }),
    {
        Config { max_dim: DEFAULT_BOUND, background: Color::white() }
    }
}

/// The grid that reaches the encoder: the decoded grid, flattened onto the
/// background on the JPEG path (the WebP path skips the compositor), then
/// downscaled to the bound.
pub open spec fn prepared_view(g: GridView, target: Target, cfg: Config) -> GridView {
    let staged = if target is Jpeg {
        flatten_view(g, cfg.background)
    } else {
        g
    };
    scaled_view(staged, cfg.max_dim as int)
}

/// The whole pipeline as a function of the input bytes: empty input and
/// unrecognized bytes are classified failures; otherwise the prepared grid's
/// encoding, or the encoder's classified failure.
pub open spec fn pipeline_model(raw: Seq<u8>, target: Target, cfg: Config) -> Result<
    EncodedView,
    PipelineError,
> {
    if raw.len() == 0 {
        Err(PipelineError::EmptyInput)
    } else if !decode_accepts(raw) {
        Err(PipelineError::DecodeFailed)
    } else {
        match encoding_model(prepared_view(decoded_grid(raw).unwrap(), target, cfg), target) {
            Some(bytes) => Ok(EncodedView { bytes, target }),
            None => Err(PipelineError::EncodeFailed),
        }
    }
}

/// The model of a transcoding outcome.
pub open spec fn transcode_view(r: Result<EncodedResult, PipelineError>) -> Result<
    EncodedView,
    PipelineError,
> {
    match r {
        Ok(e) => Ok(e@),
        Err(err) => Err(err),
    }
}

/// Transcodes an uploaded byte buffer into the target format: decodes it,
/// flattens any alpha channel onto the configured background (JPEG path
/// only), downscales so that neither dimension exceeds the configured bound,
/// and re-encodes. Returns exactly what `pipeline_model` says for these
/// bytes: encoded bytes tagged with the target, or the classified failure of
/// the first stage that failed.
pub fn transcode(raw: &Vec<u8>, target: Target, cfg: &Config) -> (r: Result<
    EncodedResult,
    PipelineError,
>)
    requires
        cfg.max_dim >= 1,
    ensures
        transcode_view(r) == pipeline_model(raw@, target, *cfg),
{
    if raw.len() == 0 {
        return Err(PipelineError::EmptyInput);
    }
    let grid = match decode(raw) {
        Ok(g) => g,
        Err(_) => {
            return Err(PipelineError::DecodeFailed);
        },
    };
    let staged = match target {
        Target::Jpeg => grid.flatten(cfg.background),
        Target::Webp => grid,
    };
    let scaled = staged.bound(cfg.max_dim);
    match crate::codec::encode(scaled, target) {
        Ok(e) => Ok(e),
        Err(_) => Err(PipelineError::EncodeFailed),
    }
}

/// Law: format guarantee, on the pixel side. The grid the JPEG encoder
/// receives is always alpha-free, and the grid the WebP encoder receives
/// keeps an alpha channel exactly when the decoded input had one.
pub proof fn lemma_prepared_alpha(g: GridView, cfg: Config)
    ensures
        !prepared_view(g, Target::Jpeg, cfg).alpha,
        prepared_view(g, Target::Webp, cfg).alpha == g.alpha,
{
}

/// Law: no upscaling, end to end. When the decoded grid is already within
/// the bound, the grid that reaches the encoder has exactly the decoded
/// dimensions, on both paths.
pub proof fn lemma_no_upscale(g: GridView, target: Target, cfg: Config)
    requires
        g.max_side() <= cfg.max_dim,
    ensures
        prepared_view(g, target, cfg).width == g.width,
        prepared_view(g, target, cfg).height == g.height,
{
}

} // verus!
