//! The conversion itself: validate the component count, then emit the
//! interleaved byte buffer, plus the proved laws of the conversion.

use vstd::arithmetic::div_mod::lemma_fundamental_div_mod_converse;
use vstd::prelude::*;

use crate::pixel::{
    channel_count, conversion_spec, converted_bytes, emitted_byte, format_for, low_byte,
    ConversionError, DecodedImage, PixelBuffer, PixelFormat,
};

verus! {

/// A flat output index `p * cc + c` decomposes back into pixel `p` and
/// channel `c`, and lies inside a buffer of `pixels` pixels.
proof fn lemma_flat_index(cc: int, pixels: int, p: int, c: int)
    requires
        1 <= cc,
        0 <= p < pixels,
        0 <= c < cc,
    ensures
        0 <= p * cc + c < pixels * cc,
        (p * cc + c) / cc == p,
        (p * cc + c) % cc == c,
{
    lemma_fundamental_div_mod_converse(p * cc + c, cc, p, c);
    assert(p * cc + c < pixels * cc) by (nonlinear_arith)
        requires
            0 <= p < pixels,
            0 <= c < cc,
    ;
}

/// The byte of the conversion output at pixel `p`, channel `c`.
pub proof fn lemma_byte_at(image: DecodedImage, cc: int, p: int, c: int)
    requires
        cc == channel_count(format_for(image.components@.len())),
        0 <= p < image.pixel_count(),
        0 <= c < cc,
    ensures
        converted_bytes(image)[p * cc + c] == emitted_byte(image, p, c),
{
    lemma_flat_index(cc, image.pixel_count() as int, p, c);
}

/// Emit the interleaved bytes for an image with a supported component count:
/// row-major over pixels, channels of one pixel consecutive, every sample
/// narrowed to its low eight bits, alpha synthesized for three components.
#[verifier::loop_isolation(false)]
pub fn interleave(image: &DecodedImage) -> (bytes: Vec<u8>)
    requires
        image.wf(),
        1 <= image.components@.len() <= 4,
    ensures
        bytes@ == converted_bytes(*image),
{
    let n = image.components.len();
    let cc: usize = if n == 1 {
        1
    } else if n == 2 {
        2
    } else {
        4
    };
    let ghost icc: int = cc as int;
    let pixels = image.components[0].samples.len();
    proof {
        assert(pixels == image.pixel_count());
        assert(icc == channel_count(format_for(image.components@.len())));
    }
    let mut bytes: Vec<u8> = Vec::new();
    for p in 0..pixels
        invariant
            bytes@.len() == p * icc,
            forall|j: int|
                0 <= j < bytes@.len() ==> (#[trigger] bytes@[j]) == converted_bytes(*image)[j],
    {
        for c in 0..cc
            invariant
                bytes@.len() == p * icc + c,
                forall|j: int|
                    0 <= j < bytes@.len() ==> (#[trigger] bytes@[j]) == converted_bytes(*image)[j],
        {
            let b: u8 = if n == 3 && c == 3 {
                255
            } else {
                (image.components[c].samples[p] % 256) as u8
            };
            proof {
                lemma_flat_index(icc, pixels as int, p as int, c as int);
                assert(converted_bytes(*image)[p * icc + c] == emitted_byte(
                    *image,
                    p as int,
                    c as int,
                ));
                assert(b == emitted_byte(*image, p as int, c as int));
            }
            bytes.push(b);
        }
        proof {
            assert((p + 1) * icc == p * icc + icc) by (nonlinear_arith);
        }
    }
    proof {
        assert(bytes@ =~= converted_bytes(*image));
    }
    bytes
}

/// Convert a decoded image into a tightly packed, interleaved pixel buffer.
///
/// One component becomes `Gray8`, two become `GrayAlpha8`, three become
/// `Rgba8` with a synthesized fully opaque alpha channel, four become
/// `Rgba8` verbatim; any other component count is refused. A zero-width or
/// zero-height image converts to an empty buffer. The input is only read;
/// the output buffer is freshly allocated.
pub fn convert(image: &DecodedImage) -> (result: Result<PixelBuffer, ConversionError>)
    requires
        image.wf(),
    ensures
        match result {
            Ok(buffer) => 1 <= image.components@.len() <= 4 && conversion_spec(*image, buffer),
            Err(err) => !(1 <= image.components@.len() <= 4) && err
                == ConversionError::UnsupportedComponentCount(image.components@.len() as usize),
        },
{
    let n = image.components.len();
    if 1 <= n && n <= 4 {
        let format = if n == 1 {
            PixelFormat::Gray8
        } else if n == 2 {
            PixelFormat::GrayAlpha8
        } else {
            PixelFormat::Rgba8
        };
        let bytes = interleave(image);
        Ok(PixelBuffer { format, bytes })
    } else {
        Err(ConversionError::UnsupportedComponentCount(n))
    }
}

/// Length law: the output always holds exactly one byte per channel per
/// pixel, `width * height * channel_count(format)` in all.
pub proof fn lemma_converted_len(image: DecodedImage)
    ensures
        converted_bytes(image).len() == image.pixel_count() * channel_count(
            format_for(image.components@.len()),
        ),
{
}

/// Dispatch law: the output format is determined by the component count
/// alone — one maps to `Gray8`, two to `GrayAlpha8`, three and four to
/// `Rgba8`.
pub proof fn lemma_format_dispatch()
    ensures
        format_for(1) == PixelFormat::Gray8,
        format_for(2) == PixelFormat::GrayAlpha8,
        format_for(3) == PixelFormat::Rgba8,
        format_for(4) == PixelFormat::Rgba8,
{
}

/// Alpha synthesis law: for a three-component image every emitted alpha
/// byte — the fourth byte of each pixel — is 255, full opacity.
pub proof fn lemma_alpha_synthesized(image: DecodedImage)
    requires
        image.components@.len() == 3,
    ensures
        forall|p: int|
            0 <= p < image.pixel_count() ==> #[trigger] converted_bytes(image)[p * 4 + 3] == 255,
{
    assert forall|p: int|
        0 <= p < image.pixel_count() implies #[trigger] converted_bytes(image)[p * 4 + 3]
        == 255 by {
        lemma_byte_at(image, 4, p, 3);
    }
}

/// Alpha passthrough law: for a four-component image every emitted alpha
/// byte is the narrowed sample of the fourth plane, taken verbatim.
pub proof fn lemma_alpha_verbatim(image: DecodedImage)
    requires
        image.components@.len() == 4,
    ensures
        forall|p: int|
            0 <= p < image.pixel_count() ==> #[trigger] converted_bytes(image)[p * 4 + 3]
                == low_byte(image.components@[3].samples@[p]),
{
    assert forall|p: int|
        0 <= p < image.pixel_count() implies #[trigger] converted_bytes(image)[p * 4 + 3]
        == low_byte(image.components@[3].samples@[p]) by {
        lemma_byte_at(image, 4, p, 3);
    }
}

/// Truncation law: narrowing keeps the low eight bits, so a sample of
/// `256 + k` becomes the byte `k`, not a clamped 255.
pub proof fn lemma_narrow_wraps(k: u32)
    requires
        k < 256,
    ensures
        low_byte((256 + k) as u32) == k,
{
}

/// Determinism law: the conversion contract pins the whole output, so any
/// two buffers that satisfy it for the same image are identical.
pub proof fn lemma_deterministic(image: DecodedImage, a: PixelBuffer, b: PixelBuffer)
    requires
        conversion_spec(image, a),
        conversion_spec(image, b),
    ensures
        a.format == b.format,
        a.bytes@ == b.bytes@,
{
}

} // verus!
