//! Data model of the conversion: planes in, an interleaved byte buffer out,
//! together with the specification of the output bytes.

use vstd::prelude::*;

verus! {

/// One channel's full grid of samples for an image, stored as a flat
/// row-major sequence, one sample per pixel. Samples may carry more than
/// eight bits of precision; output narrows them to their low eight bits.
pub struct ComponentPlane {
    pub width: u32,
    pub height: u32,
    pub samples: Vec<u32>,
}

impl ComponentPlane {
    /// The plane covers exactly the given dimensions, one sample per pixel.
    pub open spec fn matches_dims(&self, width: u32, height: u32) -> bool {
        &&& self.width == width
        &&& self.height == height
        &&& self.samples@.len() == width * height
    }
}

/// A decoded image: pixel dimensions plus one component plane per channel.
pub struct DecodedImage {
    pub width: u32,
    pub height: u32,
    pub components: Vec<ComponentPlane>,
}

impl DecodedImage {
    /// Every component plane has the image's dimensions and a full sample grid.
    pub open spec fn wf(&self) -> bool {
        forall|i: int|
            0 <= i < self.components@.len() ==> (#[trigger] self.components@[i]).matches_dims(
                self.width,
                self.height,
            )
    }

    /// Number of pixels in the image.
    pub open spec fn pixel_count(&self) -> nat {
        (self.width * self.height) as nat
    }
}

/// The target format of an interleaved pixel buffer.
#[derive(Clone, Copy, Debug, PartialEq, Eq, Structural)]
pub enum PixelFormat {
    /// One byte per pixel: luminance.
    Gray8,
    /// Two bytes per pixel: luminance, alpha.
    GrayAlpha8,
    /// Four bytes per pixel: red, green, blue, alpha.
    Rgba8,
}

/// Bytes per pixel of a format.
pub open spec fn channel_count(format: PixelFormat) -> nat {
    match format {
        PixelFormat::Gray8 => 1,
        PixelFormat::GrayAlpha8 => 2,
        PixelFormat::Rgba8 => 4,
    }
}

/// Bytes per pixel of a format (executable counterpart of [`channel_count`]).
pub fn channels_per_pixel(format: PixelFormat) -> (n: usize)
    ensures
        n == channel_count(format),
{
    match format {
        PixelFormat::Gray8 => 1,
        PixelFormat::GrayAlpha8 => 2,
        PixelFormat::Rgba8 => 4,
    }
}

/// The output format chosen for a component count: one component is gray,
/// two are gray plus alpha, three and four are RGBA.
pub open spec fn format_for(count: nat) -> PixelFormat
    recommends
        1 <= count <= 4,
{
    if count == 1 {
        PixelFormat::Gray8
    } else if count == 2 {
        PixelFormat::GrayAlpha8
    } else {
        PixelFormat::Rgba8
    }
}

/// Narrow a sample to its low eight bits: a truncating cast, not a clamp
/// and not a rescale.
pub open spec fn low_byte(sample: u32) -> u8 {
    (sample % 256) as u8
}

/// The byte emitted for channel `chan` of pixel `pixel`. For three-component
/// input the fourth channel has no source plane and is synthesized as fully
/// opaque; every other channel byte is the narrowed sample of its plane.
pub open spec fn emitted_byte(image: DecodedImage, pixel: int, chan: int) -> u8 {
    if image.components@.len() == 3 && chan == 3 {
        255u8
    } else {
        low_byte(image.components@[chan].samples@[pixel])
    }
}

/// The whole interleaved output: pixel `p` of every plane maps to the bytes
/// at positions `cc * p .. cc * p + cc`, where `cc` is the channel count of
/// the chosen format.
pub open spec fn converted_bytes(image: DecodedImage) -> Seq<u8> {
    let cc = channel_count(format_for(image.components@.len()));
    Seq::new(
        image.pixel_count() * cc,
        |j: int| emitted_byte(image, j / (cc as int), j % (cc as int)),
    )
}

/// A tightly packed, interleaved pixel buffer, freshly allocated per call.
pub struct PixelBuffer {
    pub format: PixelFormat,
    pub bytes: Vec<u8>,
}

/// What a successful conversion returns for `image`: the format chosen by
/// component count, and exactly the interleaved narrowed bytes.
pub open spec fn conversion_spec(image: DecodedImage, buffer: PixelBuffer) -> bool {
    &&& buffer.format == format_for(image.components@.len())
    &&& buffer.bytes@ == converted_bytes(image)
}

/// Why a conversion was refused.
#[derive(Clone, Copy, Debug, PartialEq, Eq, Structural)]
pub enum ConversionError {
    /// The image's component count is outside {1, 2, 3, 4}; carries the
    /// actual count.
    UnsupportedComponentCount(usize),
}

} // verus!
