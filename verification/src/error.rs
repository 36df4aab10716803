//! Why an encode did not produce an image.

use vstd::prelude::*;
use crate::color::ColorType;

verus! {

/// The ways in which encoding fails before anything is written.
#[derive(Debug, Copy, Clone, PartialEq, Eq, Structural)]
pub enum EncodeError {
    /// The color type is neither RGB8 nor RGBA8. The caller converts the
    /// pixels first; the encoder never reinterprets them.
    UnsupportedColor(ColorType),
    /// The compressor reported failure or returned no bytes. Emptiness is the
    /// only failure signal that the compressor gives, so this is a weak
    /// oracle: it does not tell why the compressor failed.
    Encoding,
}

impl EncodeError {
    /// The diagnostic text of this error.
    pub open spec fn spec_message(self) -> Seq<char> {
        match self {
            EncodeError::UnsupportedColor(_) => "color type not supported, expected RGB8 or RGBA8"@,
            EncodeError::Encoding => "encoding failed, output empty"@,
        }
    }

    /// A human-readable diagnostic.
    pub fn message(&self) -> (text: String)
        ensures
            text@ == self.spec_message(),
    {
        match self {
            EncodeError::UnsupportedColor(_) => String::from_str(
                "color type not supported, expected RGB8 or RGBA8",
            ),
            EncodeError::Encoding => String::from_str("encoding failed, output empty"),
        }
    }
}

} // verus!
