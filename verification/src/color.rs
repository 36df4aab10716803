//! Color types and the two pixel layouts that the compressor accepts.

use vstd::prelude::*;

verus! {

/// How the samples of a pixel buffer are laid out.
///
/// Only [`ColorType::Rgb8`] and [`ColorType::Rgba8`] can be encoded.
#[derive(Debug, Copy, Clone, PartialEq, Eq, Structural, Hash)]
pub enum ColorType {
    /// 8-bit luminance.
    L8,
    /// 8-bit luminance with alpha.
    La8,
    /// 8-bit red, green and blue.
    Rgb8,
    /// 8-bit red, green and blue with alpha.
    Rgba8,
    /// 16-bit luminance.
    L16,
    /// 16-bit luminance with alpha.
    La16,
    /// 16-bit red, green and blue.
    Rgb16,
    /// 16-bit red, green and blue with alpha.
    Rgba16,
    /// 32-bit floating-point red, green and blue.
    Rgb32F,
    /// 32-bit floating-point red, green and blue with alpha.
    Rgba32F,
}

/// The order of samples that the compressor reads.
#[derive(Debug, Copy, Clone, PartialEq, Eq, Structural, Hash)]
pub enum PixelLayout {
    /// Three bytes per pixel: red, green, blue.
    Rgb,
    /// Four bytes per pixel: red, green, blue, alpha.
    Rgba,
}

/// The largest width, height or row length in bytes that the compressor's
/// interface can carry (the largest C `int`).
pub const MAX_EXTENT: u32 = 2147483647;

/// The layout that a color type is encoded with, if it has one.
pub open spec fn layout_of(color: ColorType) -> Option<PixelLayout> {
    match color {
        ColorType::Rgb8 => Some(PixelLayout::Rgb),
        ColorType::Rgba8 => Some(PixelLayout::Rgba),
        _ => None,
    }
}

/// Whether a buffer of `len` bytes holds exactly `width * height` pixels of
/// `layout`, with extents that the compressor's interface can carry.
pub open spec fn buffer_fits(len: nat, width: u32, height: u32, layout: PixelLayout) -> bool {
    &&& width <= MAX_EXTENT
    &&& height <= MAX_EXTENT
    &&& width * layout.spec_bytes_per_pixel() <= MAX_EXTENT
    &&& len == width * height * layout.spec_bytes_per_pixel()
}

impl PixelLayout {
    /// Bytes per pixel: 3 without alpha, 4 with.
    pub open spec fn spec_bytes_per_pixel(self) -> nat {
        match self {
            PixelLayout::Rgb => 3,
            PixelLayout::Rgba => 4,
        }
    }

    /// Bytes per pixel: 3 without alpha, 4 with.
    pub fn bytes_per_pixel(self) -> (n: u32)
        ensures
            n == self.spec_bytes_per_pixel(),
    {
        match self {
            PixelLayout::Rgb => 3,
            PixelLayout::Rgba => 4,
        }
    }

    /// Whether a buffer of `len` bytes can be handed to the compressor as a
    /// `width` by `height` image of this layout.
    pub fn accepts(self, len: usize, width: u32, height: u32) -> (ok: bool)
        ensures
            ok == buffer_fits(len as nat, width, height, self),
    {
        if width > MAX_EXTENT || height > MAX_EXTENT {
            return false;
        }
        let bpp: u64 = self.bytes_per_pixel() as u64;
        let row: u64 = width as u64 * bpp;
        if row > MAX_EXTENT as u64 {
            return false;
        }
        assert(row * height <= 2147483647 * 2147483647) by (nonlinear_arith)
            requires
                row <= 2147483647,
                height <= 2147483647,
        ;
        assert(width * height * bpp == row * height) by (nonlinear_arith)
            requires
                row == width * bpp,
        ;
        let total: u64 = row * height as u64;
        len as u64 == total
    }
}

impl ColorType {
    /// The layout that this color type is encoded with, or `None` where the
    /// encoder does not support it. No pixel is converted: a color type
    /// either is one of the two layouts or is refused.
    pub fn pixel_layout(self) -> (layout: Option<PixelLayout>)
        ensures
            layout == layout_of(self),
    {
        match self {
            ColorType::Rgb8 => Some(PixelLayout::Rgb),
            ColorType::Rgba8 => Some(PixelLayout::Rgba),
            _ => None,
        }
    }
}

} // verus!
