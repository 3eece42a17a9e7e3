//! Decoding the image the viewer shows.
use vstd::prelude::*;
use crate::error::Error;
use crate::image::image::ImageSizeT;
use crate::image::image_formats::ImageFormat;
use crate::roseate_core::backends::DecoderKind;
use crate::roseate_core::colour_type::{ColorTypeKind, ImageColourType as CoreColourType, bytes_per_pixel};
use crate::roseate_core::image_rs::{
    apply_modifications, decode_still, modifiable, modified, resize_fits, size_after, still_image_of,
};
use crate::roseate_core::modifications::ImageModification;

verus! {

/// The channels of the pixels the viewer holds in memory.
#[derive(Debug, Clone, Copy, PartialEq, Eq, Structural)]
pub enum ImageColourType {
    /// Luma.
    Grey,
    /// Luma and alpha.
    GreyAlpha,
    RGB,
    RGBA,
}

/// An image decoded for the viewer.
pub enum DecodedImage {
    /// Pixels decoded with image-rs, with their size and channels.
    ImageRS(Vec<u8>, ImageSizeT, ImageColourType),
    /// The viewer decodes the image itself from its bytes.
    Egui,
}

/// The channels of a pixel of a colour type.
pub open spec fn colour_channels(colour: ImageColourType) -> int {
    match colour {
        ImageColourType::Grey => 1,
        ImageColourType::GreyAlpha => 2,
        ImageColourType::RGB => 3,
        ImageColourType::RGBA => 4,
    }
}

/// The channels the viewer takes a decoder's colour type as: 16-bit and floating point
/// pixels are taken as their 8-bit kind, and a colour type it does not know as RGBA.
pub open spec fn viewer_colour_of(kind: ColorTypeKind) -> ImageColourType {
    match kind {
        ColorTypeKind::L8 | ColorTypeKind::L16 => ImageColourType::Grey,
        ColorTypeKind::La8 | ColorTypeKind::La16 => ImageColourType::GreyAlpha,
        ColorTypeKind::Rgb8 | ColorTypeKind::Rgb16 | ColorTypeKind::Rgb32F => ImageColourType::RGB,
        _ => ImageColourType::RGBA,
    }
}

/// The bytes each channel of a decoder's colour type takes: 1 for the 8-bit types, 2 for the
/// 16-bit types and 4 for the floating point types.
pub open spec fn bytes_per_sample(kind: ColorTypeKind) -> int {
    match kind {
        ColorTypeKind::L8 | ColorTypeKind::La8 | ColorTypeKind::Rgb8 | ColorTypeKind::Rgba8 => 1,
        ColorTypeKind::L16 | ColorTypeKind::La16 | ColorTypeKind::Rgb16 | ColorTypeKind::Rgba16 => 2,
        ColorTypeKind::Rgb32F | ColorTypeKind::Rgba32F => 4,
        ColorTypeKind::Other => 0,
    }
}

/// The viewer keeps the decoder's channels: a pixel of every colour type it knows takes its
/// bytes per channel times the channels the viewer takes it as (so RGBA stays RGBA, RGB
/// stays RGB, and grey with alpha stays grey with alpha).
pub proof fn lemma_viewer_keeps_channel_count(kind: ColorTypeKind)
    requires
        kind != ColorTypeKind::Other,
    ensures
        bytes_per_pixel(kind) == bytes_per_sample(kind) * colour_channels(viewer_colour_of(kind)),
{
}

/// The image-rs decoder the viewer decodes a format with; SVGs and GIFs have none, the
/// viewer decodes them itself.
pub open spec fn viewer_decoder_of(format: ImageFormat) -> Option<DecoderKind> {
    match format {
        ImageFormat::Png => Some(DecoderKind::Png),
        ImageFormat::Jpeg => Some(DecoderKind::Jpeg),
        ImageFormat::Webp => Some(DecoderKind::Webp),
        ImageFormat::Svg | ImageFormat::Gif => None,
    }
}

/// Whether `result` is the failure to decode with `actual` as the underlying error's text
/// and `reason` as the reason.
pub open spec fn is_decode_failure(
    result: Result<DecodedImage, Error>,
    actual: Option<Seq<char>>,
    reason: Seq<char>,
) -> bool {
    match result {
        Err(Error::FailedToDecodeImage(Some(text), given)) => actual == Some(text@) && given@ == reason,
        Err(Error::FailedToDecodeImage(None, given)) => actual is None && given@ == reason,
        _ => false,
    }
}

/// What decoding the `bytes` of a `format` image for the viewer gives:
/// - SVGs and GIFs are left to the viewer;
/// - a decoder that cannot be made fails with its error's text, and so does a failed
///   pixel read;
/// - the pixels are taken with the channels of `viewer_colour_of`; when the decoder's colour
///   type is not known and the pixels are too few for RGBA, decoding fails.
pub open spec fn viewer_decode_outcome(
    result: Result<DecodedImage, Error>,
    bytes: Seq<u8>,
    format: ImageFormat,
) -> bool {
    match viewer_decoder_of(format) {
        None => result matches Ok(DecodedImage::Egui),
        Some(kind) => match still_image_of(bytes, kind) {
            Err(error) => is_decode_failure(
                result,
                Some(error),
                "We failed to make a decoder for this image. The image may be corrupted."@,
            ),
            Ok((size, colour_kind, Err(error))) => is_decode_failure(
                result,
                Some(error),
                "We failed to read this image. It seems bigger than we anticipated. This is most likely a bug, report it."@,
            ),
            Ok((size, colour_kind, Ok(pixels))) => if colour_kind == ColorTypeKind::Other && pixels.len()
                < size.0 * size.1 * 4 {
                is_decode_failure(
                    result,
                    None,
                    "image-rs backend failed to get colour space of image so we had to guess, but it the guess was incorrect! Image is maybe corrupted!"@,
                )
            } else {
                result matches Ok(DecodedImage::ImageRS(decoded, decoded_size, colour)) && decoded@
                    == pixels && decoded_size == size && colour == viewer_colour_of(colour_kind)
            },
        },
    }
}

/// A buffer of a decoder's bytes per pixel holds every channel of the viewer's colour type.
proof fn lemma_viewer_pixels_fit(kind: ColorTypeKind, size: (u32, u32), len: int)
    requires
        kind != ColorTypeKind::Other,
        len == size.0 * size.1 * bytes_per_pixel(kind),
    ensures
        len >= size.0 * size.1 * colour_channels(viewer_colour_of(kind)),
{
    let pixels = size.0 * size.1;
    let bytes = bytes_per_pixel(kind);
    let channels = colour_channels(viewer_colour_of(kind));
    assert(bytes >= channels);
    assert(pixels * bytes >= pixels * channels) by (nonlinear_arith)
        requires
            pixels >= 0,
            bytes >= channels,
    ;
}

/// Decodes the `bytes` of a `format` image for the viewer with image-rs (see
/// `viewer_decode_outcome`); the pixels fill the size with the channels they are taken as.
pub fn decode_image_bytes(bytes: &[u8], format: ImageFormat) -> (result: Result<DecodedImage, Error>)
    ensures
        viewer_decode_outcome(result, bytes@, format),
        result matches Ok(DecodedImage::ImageRS(pixels, size, colour)) ==> pixels.len() >= size.0
            * size.1 * colour_channels(colour),
        result matches Ok(DecodedImage::ImageRS(pixels, size, colour)) ==> match viewer_decoder_of(format) {
            Some(kind) => match still_image_of(bytes@, kind) {
                Ok((_, colour_kind, _)) => bytes_per_sample(colour_kind) == 1 ==> pixels.len() == size.0
                    * size.1 * colour_channels(colour),
                Err(_) => false,
            },
            None => false,
        },
{
    let kind = match format {
        ImageFormat::Png => DecoderKind::Png,
        ImageFormat::Jpeg => DecoderKind::Jpeg,
        ImageFormat::Webp => DecoderKind::Webp,
        ImageFormat::Svg | ImageFormat::Gif => return Ok(DecodedImage::Egui),
    };
    let (size, colour_kind, read) = match decode_still(bytes, kind) {
        Ok(still) => still,
        Err(error) => return Err(
            Error::FailedToDecodeImage(
                Some(error),
                String::from_str("We failed to make a decoder for this image. The image may be corrupted."),
            ),
        ),
    };
    let pixels = match read {
        Ok(pixels) => pixels,
        Err(error) => return Err(
            Error::FailedToDecodeImage(
                Some(error),
                String::from_str(
                    "We failed to read this image. It seems bigger than we anticipated. This is most likely a bug, report it.",
                ),
            ),
        ),
    };
    let colour = match colour_kind {
        ColorTypeKind::L8 | ColorTypeKind::L16 => ImageColourType::Grey,
        ColorTypeKind::La8 | ColorTypeKind::La16 => ImageColourType::GreyAlpha,
        ColorTypeKind::Rgb8 | ColorTypeKind::Rgb16 | ColorTypeKind::Rgb32F => ImageColourType::RGB,
        ColorTypeKind::Rgba8 | ColorTypeKind::Rgba16 | ColorTypeKind::Rgba32F => ImageColourType::RGBA,
        ColorTypeKind::Other => {
            let (width, height) = (size.0 as u128, size.1 as u128);
            assert(width * height <= 0xffff_ffffu128 * 0xffff_ffffu128) by (nonlinear_arith)
                requires
                    width <= 0xffff_ffffu128,
                    height <= 0xffff_ffffu128,
            ;
            if (pixels.len() as u128) < width * height * 4 {
                return Err(
                    Error::FailedToDecodeImage(
                        None,
                        String::from_str(
                            "image-rs backend failed to get colour space of image so we had to guess, but it the guess was incorrect! Image is maybe corrupted!",
                        ),
                    ),
                );
            }
            ImageColourType::RGBA
        },
    };
    proof {
        if colour_kind != ColorTypeKind::Other {
            lemma_viewer_pixels_fit(colour_kind, size, pixels@.len() as int);
            lemma_viewer_keeps_channel_count(colour_kind);
        }
    }
    Ok(DecodedImage::ImageRS(pixels, size, colour))
}

/// The 8-bit colour type of the decoding core with the same channels.
pub open spec fn core_colour_of(colour: ImageColourType) -> CoreColourType {
    match colour {
        ImageColourType::Grey => CoreColourType::Grey8,
        ImageColourType::GreyAlpha => CoreColourType::GreyA8,
        ImageColourType::RGB => CoreColourType::Rgb8,
        ImageColourType::RGBA => CoreColourType::Rgba8,
    }
}

/// Resizes the pixels of a `size` image with the viewer's `colour` channels to `target` with
/// image-rs's Lanczos filter, as the decoding core resizes the same channels.
pub fn resize_image_pixels(
    pixels: Vec<u8>,
    size: ImageSizeT,
    colour: ImageColourType,
    target: ImageSizeT,
) -> (result: (Vec<u8>, ImageSizeT))
    requires
        pixels.len() >= size.0 * size.1 * colour_channels(colour),
        resize_fits(size, target),
    ensures
        (result.0@, result.1) == modified(
            pixels@,
            size,
            core_colour_of(colour),
            seq![ImageModification::Resize(target.0, target.1)],
        ),
        result.1 == target,
        result.0.len() >= target.0 * target.1 * colour_channels(colour),
{
    let core_colour = match colour {
        ImageColourType::Grey => CoreColourType::Grey8,
        ImageColourType::GreyAlpha => CoreColourType::GreyA8,
        ImageColourType::RGB => CoreColourType::Rgb8,
        ImageColourType::RGBA => CoreColourType::Rgba8,
    };
    let modifications = [ImageModification::Resize(target.0, target.1)];
    assert(modifications@ =~= seq![ImageModification::Resize(target.0, target.1)]);
    assert(modifications@.drop_first() =~= Seq::<ImageModification>::empty());
    assert(modifiable(target, Seq::<ImageModification>::empty()));
    assert(modifiable(size, modifications@));
    assert(size_after(target, Seq::<ImageModification>::empty()) == target);
    assert(size_after(size, modifications@) == target);
    apply_modifications(pixels, size, core_colour, modifications.as_slice())
}

} // verus!
