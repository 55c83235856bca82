//! Decodes a raw image byte buffer into a pixel buffer through the external
//! image decoder, maps its color model to the JPEG encoder's models, and
//! re-encodes at a requested quality level. Recoding never resizes: width
//! and height are taken from the decoded image, and an image wider or taller
//! than the encoder's 16-bit range is rejected per stream instead of being
//! silently truncated.

use vstd::prelude::*;

verus! {

/// Color model of a decoded pixel buffer. Models outside the four supported
/// 8-bit ones are folded into `Other` and reported as an unsupported-format
/// condition by the recoder.
#[derive(Clone, Copy, Debug, PartialEq, Eq, Structural)]
pub enum ColorModel {
    Luma,
    LumaAlpha,
    Rgb,
    Rgba,
    Other,
}

/// Color models the JPEG encoder is driven with.
#[derive(Clone, Copy, Debug, PartialEq, Eq, Structural)]
pub enum EncoderColor {
    Luma,
    Rgb,
    Rgba,
}

/// A decoded raster image held as plain values: dimensions, color model and
/// the raw pixel bytes.
pub struct PixelImage {
    pub width: u32,
    pub height: u32,
    pub color: ColorModel,
    pub pixels: Vec<u8>,
}

/// Mathematical view of a decoded image.
pub struct ImageModel {
    pub width: u32,
    pub height: u32,
    pub color: ColorModel,
    pub pixels: Seq<u8>,
}

impl PixelImage {
    pub open spec fn model(self) -> ImageModel {
        ImageModel {
            width: self.width,
            height: self.height,
            color: self.color,
            pixels: self.pixels@,
        }
    }
}

/// What the external image decoder yields for a byte sequence: the decoded
/// image when the bytes form a decodable image, `None` otherwise.
pub uninterp spec fn decoded_image_of(s: Seq<u8>) -> Option<ImageModel>;

/// What the external JPEG encoder produces from a pixel buffer at the given
/// dimensions, color model and quality: the encoded bytes, or `None` when
/// the encoder rejects the input (a pixel buffer shorter than the
/// dimensions demand).
pub uninterp spec fn jpeg_encoding_of(
    pixels: Seq<u8>,
    width: u16,
    height: u16,
    color: EncoderColor,
    quality: u8,
) -> Option<Seq<u8>>;

/// Relies on image::load_from_memory: decoding is a function of the bytes
/// alone. Width, height and the raw pixel bytes are taken from the decoded
/// image unchanged; 8-bit luma, luma-alpha, RGB and RGBA color models map
/// one to one, every other model is classified `Other`.
#[verifier::external_body]
fn decode_image(content: &[u8]) -> (r: Option<PixelImage>)
    ensures
        match decoded_image_of(content@) {
            Some(m) => r matches Some(img) && img.model() == m,
            None => r is None,
        },
{
    match image::load_from_memory(content) {
        Ok(img) => {
            let color = match img.color() {
                image::ColorType::L8 => ColorModel::Luma,
                image::ColorType::La8 => ColorModel::LumaAlpha,
                image::ColorType::Rgb8 => ColorModel::Rgb,
                image::ColorType::Rgba8 => ColorModel::Rgba,
                _ => ColorModel::Other,
            };
            let pixels = img.as_bytes().to_vec();
            Some(PixelImage { width: img.width(), height: img.height(), color, pixels })
        }
        Err(_) => None,
    }
}

/// Relies on jpeg_encoder::Encoder::encode writing into an in-memory buffer:
/// the output is a function of the pixel bytes, dimensions, color model and
/// quality alone, and a pixel buffer shorter than the dimensions demand is
/// rejected with an error, not a panic.
#[verifier::external_body]
fn encode_jpeg(pixels: &[u8], width: u16, height: u16, color: EncoderColor, quality: u8) -> (r:
    Option<Vec<u8>>)
    requires
        1 <= quality <= 100,
    ensures
        match jpeg_encoding_of(pixels@, width, height, color, quality) {
            Some(encoded) => r matches Some(out) && out@ == encoded,
            None => r is None,
        },
{
    let color_type = match color {
        EncoderColor::Luma => jpeg_encoder::ColorType::Luma,
        EncoderColor::Rgb => jpeg_encoder::ColorType::Rgb,
        EncoderColor::Rgba => jpeg_encoder::ColorType::Rgba,
    };
    let mut out = Vec::new();
    let encoder = jpeg_encoder::Encoder::new(&mut out, quality);
    match encoder.encode(pixels, width, height, color_type) {
        Ok(()) => Some(out),
        Err(_) => None,
    }
}

/// How a supported decoded color model drives the encoder: single-channel
/// and single-channel-with-alpha map to luma, three channels to RGB, four
/// to RGBA.
pub open spec fn encoder_color_spec(c: ColorModel) -> EncoderColor
    recommends
        c != ColorModel::Other,
{
    match c {
        ColorModel::Luma => EncoderColor::Luma,
        ColorModel::LumaAlpha => EncoderColor::Luma,
        ColorModel::Rgb => EncoderColor::Rgb,
        ColorModel::Rgba => EncoderColor::Rgba,
        ColorModel::Other => EncoderColor::Luma,
    }
}

/// Why re-encoding a presumed image stream produced no new bytes.
#[derive(Clone, Copy, Debug, PartialEq, Eq, Structural)]
pub enum RecodeError {
    /// The bytes do not decode as a valid image; the caller falls back to
    /// generic compression of the current bytes.
    DecodeFailed,
    /// The decoded color model is outside the four supported ones; handled
    /// per stream like a decode failure, never aborting the run.
    UnsupportedColorModel,
    /// A pixel dimension exceeds the encoder's 16-bit range; rejected
    /// explicitly rather than silently wrapped.
    DimensionsTooLarge,
    /// The encoder rejected the decoded pixel data; the caller retains the
    /// pre-encode content.
    EncodeFailed,
}

/// What recoding yields for a byte buffer at a quality level: the re-encoded
/// JPEG bytes, or the reason none were produced.
pub open spec fn recode_spec(s: Seq<u8>, quality: u8) -> Result<Seq<u8>, RecodeError> {
    match decoded_image_of(s) {
        None => Err(RecodeError::DecodeFailed),
        Some(m) => {
            if m.color == ColorModel::Other {
                Err(RecodeError::UnsupportedColorModel)
            } else if m.width > 0xffff || m.height > 0xffff {
                Err(RecodeError::DimensionsTooLarge)
            } else {
                match jpeg_encoding_of(
                    m.pixels,
                    m.width as u16,
                    m.height as u16,
                    encoder_color_spec(m.color),
                    quality,
                ) {
                    Some(encoded) => Ok(encoded),
                    None => Err(RecodeError::EncodeFailed),
                }
            }
        },
    }
}

/// Decode a byte buffer believed to be JPEG-signatured and re-encode it at
/// the requested quality. Pure transform: on any failure the caller's
/// content is left for the caller to handle.
pub fn recode_image(content: &[u8], quality: u8) -> (r: Result<Vec<u8>, RecodeError>)
    requires
        1 <= quality <= 100,
    ensures
        match recode_spec(content@, quality) {
            Ok(encoded) => r matches Ok(out) && out@ == encoded,
            Err(e) => r matches Err(got) && got == e,
        },
{
    let img = match decode_image(content) {
        Some(img) => img,
        None => {
            return Err(RecodeError::DecodeFailed);
        },
    };
    let enc_color = match img.color {
        ColorModel::Luma => EncoderColor::Luma,
        ColorModel::LumaAlpha => EncoderColor::Luma,
        ColorModel::Rgb => EncoderColor::Rgb,
        ColorModel::Rgba => EncoderColor::Rgba,
        ColorModel::Other => {
            return Err(RecodeError::UnsupportedColorModel);
        },
    };
    if img.width > 0xffff || img.height > 0xffff {
        return Err(RecodeError::DimensionsTooLarge);
    }
    let width = img.width as u16;
    let height = img.height as u16;
    match encode_jpeg(img.pixels.as_slice(), width, height, enc_color, quality) {
        Some(out) => Ok(out),
        None => Err(RecodeError::EncodeFailed),
    }
}

} // verus!
