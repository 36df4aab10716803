//! A WebP encoder front end: quality selection, pixel-layout resolution and
//! validation of the compressor's output, with the bitstream compression
//! itself delegated to libwebp.

pub mod color;
pub mod compressor;
pub mod encoder;
pub mod error;
pub mod quality;

pub use color::{ColorType, PixelLayout};
pub use encoder::WebPEncoder;
pub use error::EncodeError;
pub use quality::{Fidelity, WebPQuality};
