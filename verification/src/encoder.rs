//! The encoder: one sink, one quality, one encode.

use vstd::prelude::*;
use crate::color::{buffer_fits, layout_of, ColorType};
use crate::compressor::{bytes_of, compress, compressed};
use crate::error::EncodeError;
use crate::quality::{Fidelity, WebPQuality};

verus! {

/// WebP Encoder.
///
/// Holds the sink that the image is meant for and the quality to encode
/// with. [`WebPEncoder::encode`] takes the encoder by value, so an encoder
/// encodes once.
pub struct WebPEncoder<W> {
    inner: W,
    quality: WebPQuality,
}

/// What becomes of the compressor's output: bytes to write, or an encoding
/// failure where the compressor failed or returned nothing.
pub open spec fn validated(output: Option<Seq<u8>>) -> Result<Seq<u8>, EncodeError> {
    match output {
        Some(bytes) => if bytes.len() > 0 {
            Ok(bytes)
        } else {
            Err(EncodeError::Encoding)
        },
        None => Err(EncodeError::Encoding),
    }
}

/// The outcome of encoding an image: the bytes of the WebP stream, or the
/// reason why there is none.
pub open spec fn encoded(
    pixels: Seq<u8>,
    width: nat,
    height: nat,
    color: ColorType,
    quality: Fidelity,
) -> Result<Seq<u8>, EncodeError> {
    match layout_of(color) {
        Some(layout) => validated(compressed(pixels, layout, width, height, quality)),
        None => Err(EncodeError::UnsupportedColor(color)),
    }
}

/// Accepts the compressor's output if it holds at least one byte.
///
/// The compressor has no other error channel, so an empty or missing buffer
/// is the one sign of failure. The bytes are handed on untouched.
pub fn validate(output: Option<Vec<u8>>) -> (checked: Result<Vec<u8>, EncodeError>)
    ensures
        match validated(bytes_of(output)) {
            Ok(stream) => checked matches Ok(bytes) && bytes@ == stream,
            Err(e) => checked == Err::<Vec<u8>, EncodeError>(e),
        },
        match checked {
            Ok(bytes) => output == Some(bytes) && bytes@.len() > 0,
            Err(e) => e == EncodeError::Encoding && (output matches Some(bytes) ==> bytes@.len()
                == 0),
        },
{
    match output {
        Some(bytes) => {
            if bytes.len() == 0 {
                Err(EncodeError::Encoding)
            } else {
                Ok(bytes)
            }
        },
        None => Err(EncodeError::Encoding),
    }
}

impl<W> WebPEncoder<W> {
    /// The sink that this encoder was made with.
    pub closed spec fn sink(self) -> W {
        self.inner
    }

    /// The quality that this encoder encodes with.
    pub closed spec fn quality(self) -> WebPQuality {
        self.quality
    }

    /// Create a new encoder whose output is meant for `w`.
    ///
    /// Defaults to lossy encoding, see [`WebPQuality::DEFAULT`].
    pub fn new(w: W) -> (encoder: Self)
        ensures
            encoder.sink() == w,
            encoder.quality()@ == Fidelity::Lossy(80),
    {
        WebPEncoder::new_with_quality(w, WebPQuality::default())
    }

    /// Create a new encoder with the specified quality, whose output is meant for `w`.
    pub fn new_with_quality(w: W, quality: WebPQuality) -> (encoder: Self)
        ensures
            encoder.sink() == w,
            encoder.quality() == quality,
    {
        WebPEncoder { inner: w, quality }
    }

    /// Encode image data with the indicated color type.
    ///
    /// The data must be RGB8 or RGBA8: any other color type is refused, and
    /// no pixel is converted. On success the encoder gives up its sink,
    /// untouched, together with the whole WebP stream that is to be written
    /// to it, in order and once. On failure there is nothing to write.
    pub fn encode(self, data: &[u8], width: u32, height: u32, color: ColorType) -> (result: Result<
        (W, Vec<u8>),
        EncodeError,
    >)
        requires
            layout_of(color) matches Some(layout) ==> buffer_fits(
                data@.len(),
                width,
                height,
                layout,
            ),
        ensures
            match encoded(data@, width as nat, height as nat, color, self.quality()@) {
                Ok(stream) => result matches Ok((sink, bytes)) && sink == self.sink() && bytes@
                    == stream,
                Err(e) => result == Err::<(W, Vec<u8>), EncodeError>(e),
            },
            layout_of(color) is None <==> result == Err::<(W, Vec<u8>), EncodeError>(
                EncodeError::UnsupportedColor(color),
            ),
            result matches Ok((_, bytes)) ==> bytes@.len() > 0,
    {
        let layout = match color.pixel_layout() {
            Some(layout) => layout,
            None => {
                return Err(EncodeError::UnsupportedColor(color));
            },
        };
        let output = compress(data, layout, width, height, self.quality);
        match validate(output) {
            Ok(bytes) => Ok((self.inner, bytes)),
            Err(e) => Err(e),
        }
    }
}

/// Encoding is a function of the image and the quality alone: two encoders
/// of equal quality, whatever their sinks, give the same outcome for the same
/// pixels, dimensions and color type.
pub proof fn encoding_is_deterministic<V, W>(
    first: WebPEncoder<V>,
    second: WebPEncoder<W>,
    pixels: Seq<u8>,
    width: nat,
    height: nat,
    color: ColorType,
)
    requires
        first.quality()@ == second.quality()@,
    ensures
        encoded(pixels, width, height, color, first.quality()@) == encoded(
            pixels,
            width,
            height,
            color,
            second.quality()@,
        ),
{
}

/// A color type other than RGB8 and RGBA8 is refused whatever the pixels,
/// the dimensions and the quality are, and the compressor's output plays no
/// part in it.
pub proof fn other_colors_are_refused(
    pixels: Seq<u8>,
    width: nat,
    height: nat,
    color: ColorType,
    quality: Fidelity,
)
    requires
        color != ColorType::Rgb8,
        color != ColorType::Rgba8,
    ensures
        encoded(pixels, width, height, color, quality) == Err::<Seq<u8>, EncodeError>(
            EncodeError::UnsupportedColor(color),
        ),
{
}

/// An empty output of the compressor is an encoding failure, and so is a
/// missing one; any other output is accepted as it is.
pub proof fn empty_output_is_a_failure(output: Option<Seq<u8>>)
    ensures
        output == Some(Seq::<u8>::empty()) ==> validated(output) == Err::<Seq<u8>, EncodeError>(
            EncodeError::Encoding,
        ),
        validated(output) is Ok <==> (output matches Some(bytes) && bytes.len() > 0),
        validated(output) matches Ok(bytes) ==> output == Some(bytes),
{
}

} // verus!
