//! Decisions the image-rs decoding backend makes around its decoders.
use vstd::prelude::*;
use crate::roseate_core::error::Error;
use crate::roseate_core::format::{ImageFormat, format_text};
use crate::roseate_core::metadata::{ImageMetadata, ExifTag, shows_fields, exif_field_display, exif_read_error};

verus! {

/// The image-rs decoders the backend uses.
#[derive(Debug, Clone, Copy, PartialEq, Eq, Structural)]
pub enum DecoderKind {
    Png,
    Jpeg,
    Webp,
    Gif,
    Tiff,
}

/// The decoder for a format, if the backend has one.
pub open spec fn decoder_of_format(format: ImageFormat) -> Option<DecoderKind> {
    match format {
        ImageFormat::Gif => Some(DecoderKind::Gif),
        ImageFormat::Png => Some(DecoderKind::Png),
        ImageFormat::Jpeg => Some(DecoderKind::Jpeg),
        ImageFormat::Webp => Some(DecoderKind::Webp),
        ImageFormat::Tiff => Some(DecoderKind::Tiff),
        _ => None,
    }
}

/// The format each image-rs decoder reads.
pub open spec fn format_read_by(kind: DecoderKind) -> ImageFormat {
    match kind {
        DecoderKind::Png => ImageFormat::Png,
        DecoderKind::Jpeg => ImageFormat::Jpeg,
        DecoderKind::Webp => ImageFormat::Webp,
        DecoderKind::Gif => ImageFormat::Gif,
        DecoderKind::Tiff => ImageFormat::Tiff,
    }
}

/// The backend decodes each format one of its decoders reads with that decoder (so PNG,
/// JPEG, WebP, GIF and TIFF are never refused as unsupported), and decodes a format only
/// with a decoder that reads it.
pub proof fn lemma_every_decoder_is_used(kind: DecoderKind, format: ImageFormat)
    ensures
        decoder_of_format(format_read_by(kind)) == Some(kind),
        decoder_of_format(format) matches Some(found) ==> format_read_by(found) == format,
{
}

/// The decoder the image-rs backend decodes a format with, or the error that the backend
/// does not support the format (named as it is shown).
pub fn decoder_for_format(format: ImageFormat) -> (decoder: Result<DecoderKind, Error>)
    ensures
        match decoder_of_format(format) {
            Some(kind) => decoder matches Ok(k) && k == kind,
            None => decoder matches Err(Error::DecoderImageFormatNotSupported { image_format, backend })
                && image_format@ == format_text(format) && backend@ == "image-rs"@,
        },
        decoder is Ok <==> (format is Png || format is Jpeg || format is Webp || format is Gif
            || format is Tiff),
        decoder matches Ok(kind) ==> format_read_by(kind) == format,
{
    match format {
        ImageFormat::Gif => Ok(DecoderKind::Gif),
        ImageFormat::Png => Ok(DecoderKind::Png),
        ImageFormat::Jpeg => Ok(DecoderKind::Jpeg),
        ImageFormat::Webp => Ok(DecoderKind::Webp),
        ImageFormat::Tiff => Ok(DecoderKind::Tiff),
        unsupported_format => Err(
            Error::DecoderImageFormatNotSupported {
                image_format: unsupported_format.description(),
                backend: String::from_str("image-rs"),
            },
        ),
    }
}

/// Whether an image is decoded frame by frame: GIFs always are, PNGs and WebPs when the
/// decoder reports an animation (`reports_animation`), JPEGs and TIFFs never.
pub open spec fn decodes_as_animation(kind: DecoderKind, reports_animation: bool) -> bool {
    match kind {
        DecoderKind::Gif => true,
        DecoderKind::Png | DecoderKind::Webp => reports_animation,
        DecoderKind::Jpeg | DecoderKind::Tiff => false,
    }
}

impl DecoderKind {
    /// Whether the decoder can report that an image is animated; only then is
    /// `reports_animation` of `decode_as_animation` read.
    pub fn checks_for_animation(&self) -> (checks: bool)
        ensures
            checks == (*self is Png || *self is Webp),
    {
        match self {
            DecoderKind::Png | DecoderKind::Webp => true,
            _ => false,
        }
    }

    /// Whether the image is decoded frame by frame.
    pub fn decode_as_animation(&self, reports_animation: bool) -> (animated: bool)
        ensures
            animated == decodes_as_animation(*self, reports_animation),
    {
        match self {
            DecoderKind::Gif => true,
            DecoderKind::Png | DecoderKind::Webp => reports_animation,
            DecoderKind::Jpeg | DecoderKind::Tiff => false,
        }
    }
}

/// Whether `metadata` has no field set.
pub open spec fn is_empty_metadata(metadata: ImageMetadata) -> bool {
    &&& metadata.model is None && metadata.iso is None && metadata.aperture is None
    &&& metadata.focal_length is None && metadata.exposure_time is None
    &&& metadata.originally_created is None
    &&& metadata.location.longitude is None && metadata.location.latitude is None
    &&& metadata.location.altitude is None
}

/// The view of an optional chunk of bytes.
pub open spec fn bytes_view(chunk: Option<Vec<u8>>) -> Option<Seq<u8>> {
    match chunk {
        Some(bytes) => Some(bytes@),
        None => None,
    }
}

/// Whether `metadata` is what a decoded image shows of its Exif `chunk`: the fields the
/// Exif reader finds in it, or nothing when there is no chunk or the reader refuses it.
pub open spec fn shows_exif(metadata: ImageMetadata, chunk: Option<Seq<u8>>) -> bool {
    match chunk {
        None => is_empty_metadata(metadata),
        Some(chunk) => if exif_read_error(chunk) is Some {
            is_empty_metadata(metadata)
        } else {
            shows_fields(metadata, |tag: ExifTag| exif_field_display(chunk, tag))
        },
    }
}

/// The metadata of a decoded image: read from its Exif chunk when it has one that the
/// Exif reader parses, and empty otherwise.
pub fn get_decoded_image_metadata(image_exif_chunk: Option<Vec<u8>>) -> (metadata: ImageMetadata)
    ensures
        shows_exif(metadata, bytes_view(image_exif_chunk)),
{
    match image_exif_chunk {
        Some(exif_chunk) => match ImageMetadata::new(exif_chunk) {
            Ok(metadata) => metadata,
            Err(_) => ImageMetadata::default(),
        },
        None => ImageMetadata::default(),
    }
}

} // verus!
