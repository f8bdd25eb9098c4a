//! Planar-to-interleaved pixel conversion for decoded JPEG 2000 images.
//!
//! A decoder hands over an image as separate component planes (one flat,
//! row-major grid of samples per channel). Texture consumers want a single
//! tightly packed, interleaved byte buffer in a fixed format. This crate
//! provides that conversion as a pure function: it validates the component
//! count, picks the output format, narrows each sample to eight bits, and
//! synthesizes a constant opaque alpha channel for three-component input.

mod convert;
mod pixel;

pub use convert::{convert, interleave};
pub use pixel::{
    channel_count, channels_per_pixel, conversion_spec, converted_bytes, emitted_byte, format_for,
    low_byte, ComponentPlane, ConversionError, DecodedImage, PixelBuffer, PixelFormat,
};
