//! The bitstream compressor: libwebp's simple encoding interface.
//!
//! The compressor is a black box. Each of its four entry points gets a name
//! for what it returns, and the encoder's contracts speak of those names.

use vstd::prelude::*;
use crate::color::{buffer_fits, PixelLayout};
use crate::quality::{Fidelity, WebPQuality};

verus! {

/// What `libwebp::WebPEncodeRGB` returns: the lossy encoding of an RGB
/// buffer, or `None` where it reports failure.
pub uninterp spec fn lossy_rgb(pixels: Seq<u8>, width: nat, height: nat, stride: nat, quality: nat) -> Option<Seq<u8>>;

/// What `libwebp::WebPEncodeRGBA` returns: the lossy encoding of an RGBA
/// buffer, or `None` where it reports failure.
pub uninterp spec fn lossy_rgba(pixels: Seq<u8>, width: nat, height: nat, stride: nat, quality: nat) -> Option<Seq<u8>>;

/// What `libwebp::WebPEncodeLosslessRGB` returns: the lossless encoding of an
/// RGB buffer, or `None` where it reports failure.
pub uninterp spec fn lossless_rgb(pixels: Seq<u8>, width: nat, height: nat, stride: nat) -> Option<Seq<u8>>;

/// What `libwebp::WebPEncodeLosslessRGBA` returns: the lossless encoding of
/// an RGBA buffer, or `None` where it reports failure.
pub uninterp spec fn lossless_rgba(pixels: Seq<u8>, width: nat, height: nat, stride: nat) -> Option<Seq<u8>>;

/// The bytes of an optional buffer.
pub open spec fn bytes_of(buffer: Option<Vec<u8>>) -> Option<Seq<u8>> {
    match buffer {
        Some(bytes) => Some(bytes@),
        None => None,
    }
}

/// What the compressor returns for a buffer that fits its dimensions: the
/// entry point is chosen by quality and layout, and rows are packed, so that
/// a row is `width * bytes_per_pixel` bytes long.
pub open spec fn compressed(
    pixels: Seq<u8>,
    layout: PixelLayout,
    width: nat,
    height: nat,
    quality: Fidelity,
) -> Option<Seq<u8>> {
    let stride = width * layout.spec_bytes_per_pixel();
    match (quality, layout) {
        (Fidelity::Lossless, PixelLayout::Rgb) => lossless_rgb(pixels, width, height, stride),
        (Fidelity::Lossless, PixelLayout::Rgba) => lossless_rgba(pixels, width, height, stride),
        (Fidelity::Lossy(level), PixelLayout::Rgb) => lossy_rgb(
            pixels,
            width,
            height,
            stride,
            level,
        ),
        (Fidelity::Lossy(level), PixelLayout::Rgba) => lossy_rgba(
            pixels,
            width,
            height,
            stride,
            level,
        ),
    }
}

/// Calls `libwebp::WebPEncodeRGB` with the level as its quality factor.
///
/// Trusted: the result is the function's own, copied out of the buffer that
/// libwebp allocated, and `None` where it returns its error. The function
/// panics where an extent does not fit a C `int` or the buffer does not hold
/// `width * height` pixels, which the precondition rules out.
#[verifier::external_body]
pub(crate) fn encode_lossy_rgb(
    pixels: &[u8],
    width: u32,
    height: u32,
    stride: u32,
    quality: u8,
) -> (out: Option<Vec<u8>>)
    requires
        buffer_fits(pixels@.len(), width, height, PixelLayout::Rgb),
        stride == width * 3,
    ensures
        bytes_of(out) == lossy_rgb(
            pixels@,
            width as nat,
            height as nat,
            stride as nat,
            quality as nat,
        ),
{
    match libwebp::WebPEncodeRGB(pixels, width, height, stride, quality.into()) {
        Ok(buffer) => Some(buffer.to_vec()),
        Err(_) => None,
    }
}

/// Calls `libwebp::WebPEncodeRGBA` with the level as its quality factor.
///
/// Trusted: the result is the function's own, copied out of the buffer that
/// libwebp allocated, and `None` where it returns its error. The function
/// panics where an extent does not fit a C `int` or the buffer does not hold
/// `width * height` pixels, which the precondition rules out.
#[verifier::external_body]
pub(crate) fn encode_lossy_rgba(
    pixels: &[u8],
    width: u32,
    height: u32,
    stride: u32,
    quality: u8,
) -> (out: Option<Vec<u8>>)
    requires
        buffer_fits(pixels@.len(), width, height, PixelLayout::Rgba),
        stride == width * 4,
    ensures
        bytes_of(out) == lossy_rgba(
            pixels@,
            width as nat,
            height as nat,
            stride as nat,
            quality as nat,
        ),
{
    match libwebp::WebPEncodeRGBA(pixels, width, height, stride, quality.into()) {
        Ok(buffer) => Some(buffer.to_vec()),
        Err(_) => None,
    }
}

/// Calls `libwebp::WebPEncodeLosslessRGB`.
///
/// Trusted: the result is the function's own, copied out of the buffer that
/// libwebp allocated, and `None` where it returns its error. The function
/// panics where an extent does not fit a C `int` or the buffer does not hold
/// `width * height` pixels, which the precondition rules out.
#[verifier::external_body]
pub(crate) fn encode_lossless_rgb(
    pixels: &[u8],
    width: u32,
    height: u32,
    stride: u32,
) -> (out: Option<Vec<u8>>)
    requires
        buffer_fits(pixels@.len(), width, height, PixelLayout::Rgb),
        stride == width * 3,
    ensures
        bytes_of(out) == lossless_rgb(pixels@, width as nat, height as nat, stride as nat),
{
    match libwebp::WebPEncodeLosslessRGB(pixels, width, height, stride) {
        Ok(buffer) => Some(buffer.to_vec()),
        Err(_) => None,
    }
}

/// Calls `libwebp::WebPEncodeLosslessRGBA`.
///
/// Trusted: the result is the function's own, copied out of the buffer that
/// libwebp allocated, and `None` where it returns its error. The function
/// panics where an extent does not fit a C `int` or the buffer does not hold
/// `width * height` pixels, which the precondition rules out.
#[verifier::external_body]
pub(crate) fn encode_lossless_rgba(
    pixels: &[u8],
    width: u32,
    height: u32,
    stride: u32,
) -> (out: Option<Vec<u8>>)
    requires
        buffer_fits(pixels@.len(), width, height, PixelLayout::Rgba),
        stride == width * 4,
    ensures
        bytes_of(out) == lossless_rgba(pixels@, width as nat, height as nat, stride as nat),
{
    match libwebp::WebPEncodeLosslessRGBA(pixels, width, height, stride) {
        Ok(buffer) => Some(buffer.to_vec()),
        Err(_) => None,
    }
}

/// Runs the compressor on a buffer that fits its dimensions: the lossless
/// entry point for a lossless quality, the lossy one with the stored level
/// otherwise, each in the variant for `layout`. Width, height and layout are
/// handed on as they are, and rows are packed.
///
/// `None` is the compressor's report of failure.
pub fn compress(
    pixels: &[u8],
    layout: PixelLayout,
    width: u32,
    height: u32,
    quality: WebPQuality,
) -> (out: Option<Vec<u8>>)
    requires
        buffer_fits(pixels@.len(), width, height, layout),
    ensures
        bytes_of(out) == compressed(pixels@, layout, width as nat, height as nat, quality@),
{
    let stride: u32 = width * layout.bytes_per_pixel();
    match (quality.level(), layout) {
        (None, PixelLayout::Rgb) => encode_lossless_rgb(pixels, width, height, stride),
        (None, PixelLayout::Rgba) => encode_lossless_rgba(pixels, width, height, stride),
        (Some(level), PixelLayout::Rgb) => encode_lossy_rgb(pixels, width, height, stride, level),
        (Some(level), PixelLayout::Rgba) => encode_lossy_rgba(pixels, width, height, stride, level),
    }
}

} // verus!
