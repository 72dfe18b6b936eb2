//! A verified image transcoding pipeline: decode an opaque byte buffer into a
//! pixel grid, flatten any alpha channel onto an opaque background, downscale
//! so that neither dimension exceeds a bound (preserving aspect ratio, never
//! upscaling), and re-encode as baseline JPEG or WebP.

pub mod codec;
pub mod flatten;
pub mod grid;
pub mod pipeline;
pub mod resample;
