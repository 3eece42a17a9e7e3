//! The image formats the viewer opens.
use vstd::prelude::*;
use crate::error::Error;
use crate::roseate_core::format::{ImageTypeKind, detect_image_type, detected_view, image_type_of_header};
use crate::roseate_core::format::ImageFormat as CoreFormat;

verus! {

#[derive(Debug, Clone, Copy, PartialEq, Eq, Structural)]
pub enum ImageFormat {
    Png,
    Jpeg,
    Svg,
    Gif,
    Webp,
}

/// The name a format is shown with.
pub open spec fn format_text(format: ImageFormat) -> Seq<char> {
    match format {
        ImageFormat::Png => "PNG (Portable Network Graphics)"@,
        ImageFormat::Jpeg => "JPEG (Joint Photographic Experts Group)"@,
        ImageFormat::Svg => "SVG (Scalable Vector Graphics)"@,
        ImageFormat::Gif => "GIF (Graphics Interchange Format)"@,
        ImageFormat::Webp => "WEBP (Web Picture)"@,
    }
}

/// The format the viewer opens an image type found in a header as, if it opens it:
/// JPEG XL images are opened as JPEG.
pub open spec fn format_of_kind(kind: ImageTypeKind) -> Option<ImageFormat> {
    match kind {
        ImageTypeKind::Gif => Some(ImageFormat::Gif),
        ImageTypeKind::Jpeg => Some(ImageFormat::Jpeg),
        ImageTypeKind::Jxl => Some(ImageFormat::Jpeg),
        ImageTypeKind::Png => Some(ImageFormat::Png),
        ImageTypeKind::Webp => Some(ImageFormat::Webp),
        _ => None,
    }
}

/// The viewer's format for a format of the decoding core, when the viewer shows it.
pub open spec fn viewer_format_of(format: CoreFormat) -> Option<ImageFormat> {
    match format {
        CoreFormat::Png => Some(ImageFormat::Png),
        CoreFormat::Jpeg => Some(ImageFormat::Jpeg),
        CoreFormat::Svg => Some(ImageFormat::Svg),
        CoreFormat::Gif => Some(ImageFormat::Gif),
        CoreFormat::Webp => Some(ImageFormat::Webp),
        _ => None,
    }
}

/// The viewer opens every image type that the decoding core reads in a format the viewer
/// shows, as that format (so a JPEG, PNG, GIF or WebP header is never refused), JPEG XL
/// images as JPEG, and no other image type.
pub proof fn lemma_viewer_opens_what_the_core_reads(kind: ImageTypeKind)
    ensures
        match crate::roseate_core::format::format_of_kind(kind) {
            Some(core) => match viewer_format_of(core) {
                Some(shown) => format_of_kind(kind) == Some(shown),
                None => true,
            },
            None => true,
        },
        kind is Jxl ==> format_of_kind(kind) == Some(ImageFormat::Jpeg),
        match format_of_kind(kind) {
            Some(shown) => kind is Jxl || match crate::roseate_core::format::format_of_kind(kind) {
                Some(core) => viewer_format_of(core) == Some(shown),
                None => false,
            },
            None => true,
        },
{
}

/// The message of the error for a format named `name` that is not supported.
pub open spec fn not_supported_message(name: Seq<char>) -> Seq<char> {
    "The image format '"@ + name + "' is not supported!"@
}

/// Whether `result` is the error for a format that is not supported, named `name`.
pub open spec fn is_not_supported(result: Result<ImageFormat, Error>, name: Seq<char>) -> bool {
    match result {
        Err(Error::ImageFormatNotSupported(None, format)) => format@ == name,
        _ => false,
    }
}

/// Whether `result` is the error for an image at `path` that failed to initialize,
/// with `actual` as the underlying error and `reason` as the reason.
pub open spec fn is_init_failure(
    result: Result<ImageFormat, Error>,
    actual: Seq<char>,
    path: Seq<char>,
    reason: Seq<char>,
) -> bool {
    match result {
        Err(Error::FailedToInitImage(Some(a), p, r)) => a@ == actual && p@ == path && r@ == reason,
        _ => false,
    }
}

impl ImageFormat {
    /// The name the format is shown with, such as `PNG (Portable Network Graphics)`.
    pub fn description(&self) -> (text: String)
        ensures
            text@ == format_text(*self),
    {
        match self {
            ImageFormat::Png => String::from_str("PNG (Portable Network Graphics)"),
            ImageFormat::Jpeg => String::from_str("JPEG (Joint Photographic Experts Group)"),
            ImageFormat::Svg => String::from_str("SVG (Scalable Vector Graphics)"),
            ImageFormat::Gif => String::from_str("GIF (Graphics Interchange Format)"),
            ImageFormat::Webp => String::from_str("WEBP (Web Picture)"),
        }
    }

    /// The format an image type found in a header is opened as, or the error that the
    /// format, named `name`, is not supported.
    pub fn try_from_image_type(kind: ImageTypeKind, name: String) -> (result: Result<Self, Error>)
        ensures
            match format_of_kind(kind) {
                Some(format) => result matches Ok(f) && f == format,
                None => is_not_supported(result, name@),
            },
            result is Ok <==> (kind is Gif || kind is Jpeg || kind is Jxl || kind is Png || kind is Webp),
    {
        let image_format = match kind {
            ImageTypeKind::Gif => ImageFormat::Gif,
            ImageTypeKind::Jpeg => ImageFormat::Jpeg,
            ImageTypeKind::Jxl => ImageFormat::Jpeg,
            ImageTypeKind::Png => ImageFormat::Png,
            ImageTypeKind::Webp => ImageFormat::Webp,
            _ => {
                return Err(Error::ImageFormatNotSupported(None, name));
            },
        };
        Ok(image_format)
    }
}

/// Whether `result` is what initializing the image at `path` finds of its format,
/// when finding the image type of its header gave `detected`.
pub open spec fn header_format_outcome(
    result: Result<ImageFormat, Error>,
    path: Seq<char>,
    detected: Result<(ImageTypeKind, Seq<char>), Seq<char>>,
) -> bool {
    match detected {
        Err(message) => is_init_failure(result, message, path, "Failed to retrieve image type!"@),
        Ok((kind, name)) => match format_of_kind(kind) {
            Some(format) => result matches Ok(f) && f == format,
            None => is_init_failure(result, not_supported_message(name), path, not_supported_message(name)),
        },
    }
}

/// Turns the image type found in the header of the image at `path` into its format,
/// or the error initializing the image ends in.
pub fn format_from_detected_type(path: &String, detected: Result<(ImageTypeKind, String), String>) -> (result: Result<ImageFormat, Error>)
    ensures
        header_format_outcome(result, path@, detected_view(detected)),
{
    match detected {
        Ok((kind, name)) => match ImageFormat::try_from_image_type(kind, name) {
            Ok(format) => Ok(format),
            Err(error) => {
                let message = error.human_message();
                Err(Error::FailedToInitImage(Some(message.clone()), path.clone(), message))
            },
        },
        Err(message) => Err(
            Error::FailedToInitImage(
                Some(message),
                path.clone(),
                String::from_str("Failed to retrieve image type!"),
            ),
        ),
    }
}

/// Finds the format of the image at `path` from the first bytes of its file.
pub fn image_format_from_header(path: &String, header: &[u8]) -> (result: Result<ImageFormat, Error>)
    ensures
        header_format_outcome(result, path@, image_type_of_header(header@)),
{
    format_from_detected_type(path, detect_image_type(header))
}

} // verus!
