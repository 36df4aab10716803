use webp_encoder::compressor::compress;
use webp_encoder::encoder::validate;
use webp_encoder::{ColorType, EncodeError, PixelLayout, WebPEncoder, WebPQuality};

fn gradient(width: u32, height: u32, channels: u32) -> Vec<u8> {
    let mut pixels = Vec::new();
    for y in 0..height {
        for x in 0..width {
            for c in 0..channels {
                let sample = if c == 3 { 255 } else { (x * 37 + y * 11 + c * 80) % 256 };
                pixels.push(sample as u8);
            }
        }
    }
    pixels
}

fn red_rgba_2x2() -> Vec<u8> {
    let mut pixels = Vec::new();
    for _ in 0..4 {
        pixels.extend_from_slice(&[255, 0, 0, 255]);
    }
    pixels
}

fn is_webp(bytes: &[u8]) -> bool {
    bytes.len() > 12 && &bytes[..4] == b"RIFF" && &bytes[8..12] == b"WEBP"
}

fn encode_with(quality: WebPQuality, pixels: &[u8], width: u32, height: u32, color: ColorType) -> Vec<u8> {
    let layout = color.pixel_layout().unwrap();
    assert!(layout.accepts(pixels.len(), width, height));
    let encoder = WebPEncoder::new_with_quality((), quality);
    let ((), bytes) = encoder.encode(pixels, width, height, color).unwrap();
    bytes
}

#[test]
fn red_square_lossless_starts_with_riff() {
    let pixels = red_rgba_2x2();
    assert_eq!(pixels.len(), 16);
    let bytes = encode_with(WebPQuality::lossless(), &pixels, 2, 2, ColorType::Rgba8);
    assert!(!bytes.is_empty());
    assert_eq!(&bytes[..4], b"RIFF");
}

#[test]
fn rgb_lossless_gives_a_webp_stream() {
    let pixels = gradient(8, 6, 3);
    let bytes = encode_with(WebPQuality::lossless(), &pixels, 8, 6, ColorType::Rgb8);
    assert!(!bytes.is_empty());
    assert!(is_webp(&bytes));
}

#[test]
fn rgba_lossless_gives_a_webp_stream() {
    let pixels = gradient(8, 6, 4);
    let bytes = encode_with(WebPQuality::lossless(), &pixels, 8, 6, ColorType::Rgba8);
    assert!(!bytes.is_empty());
    assert!(is_webp(&bytes));
}

#[test]
fn rgb_lossy_gives_a_webp_stream_at_each_level() {
    let pixels = gradient(8, 6, 3);
    for level in [0u8, 1, 50, 99, 100] {
        let bytes = encode_with(WebPQuality::lossy(level), &pixels, 8, 6, ColorType::Rgb8);
        assert!(!bytes.is_empty());
        assert!(is_webp(&bytes));
    }
}

#[test]
fn rgba_lossy_gives_a_webp_stream_at_each_level() {
    let pixels = gradient(8, 6, 4);
    for level in [0u8, 1, 50, 99, 100] {
        let bytes = encode_with(WebPQuality::lossy(level), &pixels, 8, 6, ColorType::Rgba8);
        assert!(!bytes.is_empty());
        assert!(is_webp(&bytes));
    }
}

#[test]
fn default_encoder_encodes_as_lossy_eighty() {
    let pixels = gradient(8, 6, 3);
    let (_, by_default) = WebPEncoder::new(()).encode(&pixels, 8, 6, ColorType::Rgb8).unwrap();
    let eighty = encode_with(WebPQuality::lossy(80), &pixels, 8, 6, ColorType::Rgb8);
    assert!(is_webp(&by_default));
    assert_eq!(by_default, eighty);
}

#[test]
fn levels_above_the_maximum_encode_as_the_maximum() {
    let pixels = gradient(8, 6, 3);
    let clamped = encode_with(WebPQuality::lossy(250), &pixels, 8, 6, ColorType::Rgb8);
    let hundred = encode_with(WebPQuality::lossy(100), &pixels, 8, 6, ColorType::Rgb8);
    assert!(is_webp(&clamped));
    assert_eq!(clamped, hundred);
}

#[test]
fn other_color_types_are_refused() {
    let pixels = gradient(2, 2, 4);
    let others = [
        ColorType::L8,
        ColorType::La8,
        ColorType::L16,
        ColorType::La16,
        ColorType::Rgb16,
        ColorType::Rgba16,
        ColorType::Rgb32F,
        ColorType::Rgba32F,
    ];
    for color in others {
        for quality in [WebPQuality::lossless(), WebPQuality::default()] {
            let encoder = WebPEncoder::new_with_quality(Vec::<u8>::new(), quality);
            let result = encoder.encode(&pixels, 2, 2, color);
            assert_eq!(result, Err(EncodeError::UnsupportedColor(color)));
        }
    }
}

#[test]
fn other_color_types_are_refused_whatever_the_buffer() {
    let encoder = WebPEncoder::new(());
    assert_eq!(
        encoder.encode(&[1, 2, 3], 100, 100, ColorType::L8),
        Err(EncodeError::UnsupportedColor(ColorType::L8))
    );
    let encoder = WebPEncoder::new(());
    assert_eq!(
        encoder.encode(&[], 0, 0, ColorType::Rgba16),
        Err(EncodeError::UnsupportedColor(ColorType::Rgba16))
    );
}

#[test]
fn empty_output_is_an_encoding_failure() {
    assert_eq!(validate(Some(Vec::new())), Err(EncodeError::Encoding));
}

#[test]
fn missing_output_is_an_encoding_failure() {
    assert_eq!(validate(None), Err(EncodeError::Encoding));
}

#[test]
fn nonempty_output_is_accepted_unchanged() {
    assert_eq!(validate(Some(vec![7])), Ok(vec![7]));
    assert_eq!(validate(Some(vec![0])), Ok(vec![0]));
    assert_eq!(validate(Some(vec![82, 73, 70, 70, 0, 1])), Ok(vec![82, 73, 70, 70, 0, 1]));
}

#[test]
fn image_wider_than_the_format_allows_is_an_encoding_failure() {
    // a WebP image is at most 16383 pixels wide
    let pixels = vec![0u8; 16384 * 3];
    assert!(PixelLayout::Rgb.accepts(pixels.len(), 16384, 1));
    for quality in [WebPQuality::lossless(), WebPQuality::default()] {
        let encoder = WebPEncoder::new_with_quality((), quality);
        assert_eq!(encoder.encode(&pixels, 16384, 1, ColorType::Rgb8), Err(EncodeError::Encoding));
    }
}

#[test]
fn empty_image_is_an_encoding_failure() {
    assert!(PixelLayout::Rgba.accepts(0, 0, 0));
    let encoder = WebPEncoder::new_with_quality((), WebPQuality::lossless());
    assert_eq!(encoder.encode(&[], 0, 0, ColorType::Rgba8), Err(EncodeError::Encoding));
}

#[test]
fn same_input_gives_the_same_bytes() {
    let rgb = gradient(9, 5, 3);
    let rgba = gradient(9, 5, 4);
    for quality in [WebPQuality::lossless(), WebPQuality::lossy(0), WebPQuality::lossy(75)] {
        let first = encode_with(quality, &rgb, 9, 5, ColorType::Rgb8);
        let second = encode_with(quality, &rgb, 9, 5, ColorType::Rgb8);
        assert_eq!(first, second);
        let first = encode_with(quality, &rgba, 9, 5, ColorType::Rgba8);
        let second = encode_with(quality, &rgba, 9, 5, ColorType::Rgba8);
        assert_eq!(first, second);
    }
}

#[test]
fn sink_comes_back_untouched_with_the_stream() {
    let pixels = red_rgba_2x2();
    let sink: Vec<u8> = vec![9, 8, 7];
    let encoder = WebPEncoder::new_with_quality(sink, WebPQuality::lossless());
    let (sink, bytes) = encoder.encode(&pixels, 2, 2, ColorType::Rgba8).unwrap();
    assert_eq!(sink, vec![9, 8, 7]);
    assert!(is_webp(&bytes));
}

#[test]
fn stream_length_is_in_the_riff_header() {
    let pixels = gradient(8, 6, 4);
    for quality in [WebPQuality::lossless(), WebPQuality::lossy(50)] {
        let bytes = encode_with(quality, &pixels, 8, 6, ColorType::Rgba8);
        let declared = u32::from_le_bytes([bytes[4], bytes[5], bytes[6], bytes[7]]);
        assert_eq!(declared as usize + 8, bytes.len());
    }
}

#[test]
fn compress_lossless_rgb_writes_a_lossless_chunk() {
    let pixels = gradient(4, 4, 3);
    let bytes = compress(&pixels, PixelLayout::Rgb, 4, 4, WebPQuality::lossless()).unwrap();
    assert!(is_webp(&bytes));
    assert_eq!(&bytes[12..16], b"VP8L");
    assert_ne!(bytes, pixels);
}

#[test]
fn compress_lossless_rgba_writes_a_lossless_chunk() {
    let pixels = gradient(4, 4, 4);
    let bytes = compress(&pixels, PixelLayout::Rgba, 4, 4, WebPQuality::lossless()).unwrap();
    assert!(is_webp(&bytes));
    assert_eq!(&bytes[12..16], b"VP8L");
    assert_ne!(bytes, pixels);
}

#[test]
fn compress_lossy_rgb_writes_no_lossless_chunk() {
    let pixels = gradient(4, 4, 3);
    let bytes = compress(&pixels, PixelLayout::Rgb, 4, 4, WebPQuality::lossy(75)).unwrap();
    assert!(is_webp(&bytes));
    assert_eq!(&bytes[12..16], b"VP8 ");
    assert_ne!(bytes, pixels);
}

#[test]
fn compress_lossy_rgba_writes_no_lossless_chunk() {
    let pixels = gradient(4, 4, 4);
    let bytes = compress(&pixels, PixelLayout::Rgba, 4, 4, WebPQuality::lossy(75)).unwrap();
    assert!(is_webp(&bytes));
    assert_ne!(&bytes[12..16], b"VP8L");
    assert_ne!(bytes, pixels);
}

#[test]
fn compress_reports_failure_as_none() {
    let pixels = vec![0u8; 16384 * 4];
    assert_eq!(compress(&pixels, PixelLayout::Rgba, 16384, 1, WebPQuality::lossy(75)), None);
    assert_eq!(compress(&pixels, PixelLayout::Rgba, 1, 16384, WebPQuality::lossless()), None);
}

#[test]
fn layout_decides_how_the_bytes_are_read() {
    // 48 bytes are a 4 by 4 RGB image and a 4 by 3 RGBA image
    let pixels = gradient(4, 4, 3);
    let as_rgb = encode_with(WebPQuality::lossless(), &pixels, 4, 4, ColorType::Rgb8);
    let as_rgba = encode_with(WebPQuality::lossless(), &pixels, 4, 3, ColorType::Rgba8);
    assert!(is_webp(&as_rgb));
    assert!(is_webp(&as_rgba));
    assert_ne!(as_rgb, as_rgba);
}
