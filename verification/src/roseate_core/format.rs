//! Image formats, and finding an image's format and size from its header.
use vstd::prelude::*;
use crate::roseate_core::error::Error;
use crate::roseate_core::image_info::ImageSize;

verus! {

#[derive(Debug, Clone, Copy, PartialEq, Eq, Structural)]
pub enum ImageFormat {
    Png,
    Jpeg,
    Svg,
    Gif,
    Webp,
    Avif,
    Tiff,
    Qoi,
    Bmp,
    Ico,
}

/// The file extensions of the formats roseate opens.
pub fn image_format_extensions() -> (extensions: Vec<&'static str>)
    ensures
        extensions@.len() == 12,
        extensions@[0]@ == "png"@ && extensions@[1]@ == "jpg"@ && extensions@[2]@ == "jpeg"@,
        extensions@[3]@ == "gif"@ && extensions@[4]@ == "gifv"@ && extensions@[5]@ == "webp"@,
        extensions@[6]@ == "avif"@ && extensions@[7]@ == "tiff"@ && extensions@[8]@ == "tif"@,
        extensions@[9]@ == "qoi"@ && extensions@[10]@ == "bmp"@ && extensions@[11]@ == "ico"@,
{
    vec!["png", "jpg", "jpeg", "gif", "gifv", "webp", "avif", "tiff", "tif", "qoi", "bmp", "ico"]
}

/// The name a format is shown with.
pub open spec fn format_text(format: ImageFormat) -> Seq<char> {
    match format {
        ImageFormat::Png => "PNG (Portable Network Graphics)"@,
        ImageFormat::Jpeg => "JPEG (Joint Photographic Experts Group)"@,
        ImageFormat::Svg => "SVG (Scalable Vector Graphics)"@,
        ImageFormat::Gif => "GIF (Graphics Interchange Format)"@,
        ImageFormat::Webp => "WEBP (Web Picture)"@,
        ImageFormat::Avif => "AVIF (AV1 Image File Format)"@,
        ImageFormat::Tiff => "TIFF (Tagged Image File Format)"@,
        ImageFormat::Qoi => "QOI (Quite OK Image Format)"@,
        ImageFormat::Bmp => "BMP (Bitmap)"@,
        ImageFormat::Ico => "ICO (Microsoft Icon)"@,
    }
}

impl ImageFormat {
    /// The name the format is shown with, such as `PNG (Portable Network Graphics)`.
    pub fn description(&self) -> (text: String)
        ensures
            text@ == format_text(*self),
    {
        match self {
            ImageFormat::Png => String::from_str("PNG (Portable Network Graphics)"),
            ImageFormat::Jpeg => String::from_str("JPEG (Joint Photographic Experts Group)"),
            ImageFormat::Svg => String::from_str("SVG (Scalable Vector Graphics)"),
            ImageFormat::Gif => String::from_str("GIF (Graphics Interchange Format)"),
            ImageFormat::Webp => String::from_str("WEBP (Web Picture)"),
            ImageFormat::Avif => String::from_str("AVIF (AV1 Image File Format)"),
            ImageFormat::Tiff => String::from_str("TIFF (Tagged Image File Format)"),
            ImageFormat::Qoi => String::from_str("QOI (Quite OK Image Format)"),
            ImageFormat::Bmp => String::from_str("BMP (Bitmap)"),
            ImageFormat::Ico => String::from_str("ICO (Microsoft Icon)"),
        }
    }
}

/// The compression inside a HEIF container, as `imagesize` tells them apart.
#[derive(Debug, Clone, Copy, PartialEq, Eq, Structural)]
pub enum HeifCompression {
    Av1,
    Hevc,
    Jpeg,
    Unknown,
}

/// The image types `imagesize` recognises from a header that the library tells apart;
/// every other type is `Other`.
#[derive(Debug, Clone, Copy, PartialEq, Eq, Structural)]
pub enum ImageTypeKind {
    Gif,
    Jpeg,
    Jxl,
    Png,
    Webp,
    Heif(HeifCompression),
    Tiff,
    Qoi,
    Bmp,
    Ico,
    Other,
}

#[verifier::external_type_specification]
#[verifier::external_body]
pub struct ExImageType(imagesize::ImageType);

#[verifier::external_type_specification]
#[verifier::external_body]
pub struct ExCompression(imagesize::Compression);

/// The compression of an `imagesize::Compression`, read off its variant one for one.
#[verifier::external_body]
fn heif_compression(compression: &imagesize::Compression) -> HeifCompression {
    match compression {
        imagesize::Compression::Av1 => HeifCompression::Av1,
        imagesize::Compression::Hevc => HeifCompression::Hevc,
        imagesize::Compression::Jpeg => HeifCompression::Jpeg,
        imagesize::Compression::Unknown => HeifCompression::Unknown,
    }
}

/// The kind of an `imagesize::ImageType`, read off its variant one for one.
#[verifier::external_body]
fn kind_of_image_type(image_type: &imagesize::ImageType) -> ImageTypeKind {
    match image_type {
        imagesize::ImageType::Gif => ImageTypeKind::Gif,
        imagesize::ImageType::Jpeg => ImageTypeKind::Jpeg,
        imagesize::ImageType::Jxl => ImageTypeKind::Jxl,
        imagesize::ImageType::Png => ImageTypeKind::Png,
        imagesize::ImageType::Webp => ImageTypeKind::Webp,
        imagesize::ImageType::Heif(compression) => ImageTypeKind::Heif(heif_compression(compression)),
        imagesize::ImageType::Tiff => ImageTypeKind::Tiff,
        imagesize::ImageType::Qoi => ImageTypeKind::Qoi,
        imagesize::ImageType::Bmp => ImageTypeKind::Bmp,
        imagesize::ImageType::Ico => ImageTypeKind::Ico,
        _ => ImageTypeKind::Other,
    }
}

/// What `imagesize::image_type` finds in `header`: the image type's kind and its
/// `Debug` name, or the text of the error it fails with.
pub uninterp spec fn image_type_of_header(header: Seq<u8>) -> Result<(ImageTypeKind, Seq<char>), Seq<char>>;

/// What `imagesize::blob_size` finds in `data`: width and height, or the text of the
/// error it fails with.
pub uninterp spec fn dimensions_of_header(data: Seq<u8>) -> Result<(usize, usize), Seq<char>>;

/// The view of an image type found in a header.
pub open spec fn detected_view(detected: Result<(ImageTypeKind, String), String>) -> Result<(ImageTypeKind, Seq<char>), Seq<char>> {
    match detected {
        Ok((kind, name)) => Ok((kind, name@)),
        Err(error) => Err(error@),
    }
}

/// The view of dimensions found in a header.
pub open spec fn dimensions_view(dimensions: Result<(usize, usize), String>) -> Result<(usize, usize), Seq<char>> {
    match dimensions {
        Ok(size) => Ok(size),
        Err(error) => Err(error@),
    }
}

/// `imagesize::image_type`: the type of image whose header `header` is, with the type's
/// `Debug` name, or the error's text. The result is named `image_type_of_header`;
/// how `imagesize` recognises formats is not written out here.
#[verifier::external_body]
pub(crate) fn detect_image_type(header: &[u8]) -> (detected: Result<(ImageTypeKind, String), String>)
    ensures
        detected_view(detected) == image_type_of_header(header@),
{
    match imagesize::image_type(header) {
        Ok(image_type) => Ok((kind_of_image_type(&image_type), format!("{:?}", image_type))),
        Err(error) => Err(error.to_string()),
    }
}

/// `imagesize::blob_size`: the width and height recorded in the header of the image
/// `data` holds, or the error's text. The result is named `dimensions_of_header`.
#[verifier::external_body]
pub(crate) fn read_dimensions(data: &[u8]) -> (dimensions: Result<(usize, usize), String>)
    ensures
        dimensions_view(dimensions) == dimensions_of_header(data@),
{
    match imagesize::blob_size(data) {
        Ok(size) => Ok((size.width, size.height)),
        Err(error) => Err(error.to_string()),
    }
}

/// The format roseate decodes an image type as, if it decodes it at all.
pub open spec fn format_of_kind(kind: ImageTypeKind) -> Option<ImageFormat> {
    match kind {
        ImageTypeKind::Gif => Some(ImageFormat::Gif),
        ImageTypeKind::Jpeg => Some(ImageFormat::Jpeg),
        ImageTypeKind::Png => Some(ImageFormat::Png),
        ImageTypeKind::Webp => Some(ImageFormat::Webp),
        ImageTypeKind::Heif(HeifCompression::Av1) => Some(ImageFormat::Avif),
        ImageTypeKind::Tiff => Some(ImageFormat::Tiff),
        ImageTypeKind::Qoi => Some(ImageFormat::Qoi),
        ImageTypeKind::Bmp => Some(ImageFormat::Bmp),
        ImageTypeKind::Ico => Some(ImageFormat::Ico),
        _ => None,
    }
}

/// Whether `result` is a failure to read the header at `stage`, carrying `message`.
pub open spec fn is_header_read_failure(
    result: Result<(ImageFormat, ImageSize), Error>,
    stage_text: Seq<char>,
    message: Seq<char>,
) -> bool {
    match result {
        Err(Error::ImageHeaderReadFailure { stage, error: Some(e) }) => stage@ == stage_text && e@
            == message,
        _ => false,
    }
}

/// Whether `result` is the unsupported format error naming `name`.
pub open spec fn is_unsupported_format(
    result: Result<(ImageFormat, ImageSize), Error>,
    name: Seq<char>,
) -> bool {
    match result {
        Err(Error::ImageFormatNotSupported { image_format }) => image_format@ == name,
        _ => false,
    }
}

/// Whether `result` is what reading a header gives, when finding the type gave
/// `detected` and finding the size gave `dimensions`:
/// a failure to find the type or the size is a header read failure naming the stage,
/// a type roseate does not decode is an unsupported format named by its `Debug` name,
/// and otherwise the format comes with the width and height cut to `u32`.
pub open spec fn header_outcome(
    result: Result<(ImageFormat, ImageSize), Error>,
    detected: Result<(ImageTypeKind, Seq<char>), Seq<char>>,
    dimensions: Result<(usize, usize), Seq<char>>,
) -> bool {
    match detected {
        Err(message) => is_header_read_failure(
            result,
            "Failed to determine format of image!"@,
            message,
        ),
        Ok((kind, name)) => match format_of_kind(kind) {
            None => is_unsupported_format(result, name),
            Some(format) => match dimensions {
                Err(message) => is_header_read_failure(
                    result,
                    "Failed to retrieve image dimensions!"@,
                    message,
                ),
                Ok((width, height)) => result matches Ok((f, size)) && f == format && size == (
                    width as u32,
                    height as u32,
                ),
            },
        },
    }
}

/// The format roseate decodes an image type as, if any.
pub fn format_from_kind(kind: ImageTypeKind) -> (format: Option<ImageFormat>)
    ensures
        format == format_of_kind(kind),
{
    match kind {
        ImageTypeKind::Gif => Some(ImageFormat::Gif),
        ImageTypeKind::Jpeg => Some(ImageFormat::Jpeg),
        ImageTypeKind::Png => Some(ImageFormat::Png),
        ImageTypeKind::Webp => Some(ImageFormat::Webp),
        ImageTypeKind::Heif(HeifCompression::Av1) => Some(ImageFormat::Avif),
        ImageTypeKind::Tiff => Some(ImageFormat::Tiff),
        ImageTypeKind::Qoi => Some(ImageFormat::Qoi),
        ImageTypeKind::Bmp => Some(ImageFormat::Bmp),
        ImageTypeKind::Ico => Some(ImageFormat::Ico),
        _ => None,
    }
}

/// Turns what was found in a header into the image's format and size, or the error
/// that reading the header ends in (see `header_outcome`).
pub fn format_and_size_from_header_results(
    detected: Result<(ImageTypeKind, String), String>,
    dimensions: Result<(usize, usize), String>,
) -> (result: Result<(ImageFormat, ImageSize), Error>)
    ensures
        header_outcome(result, detected_view(detected), dimensions_view(dimensions)),
{
    let (kind, name) = match detected {
        Ok(found) => found,
        Err(message) => {
            return Err(
                Error::ImageHeaderReadFailure {
                    stage: String::from_str("Failed to determine format of image!"),
                    error: Some(message),
                },
            );
        },
    };
    let format = match format_from_kind(kind) {
        Some(format) => format,
        None => {
            return Err(Error::ImageFormatNotSupported { image_format: name });
        },
    };
    match dimensions {
        Ok((width, height)) => Ok((format, (width as u32, height as u32))),
        Err(message) => Err(
            Error::ImageHeaderReadFailure {
                stage: String::from_str("Failed to retrieve image dimensions!"),
                error: Some(message),
            },
        ),
    }
}

/// Reads only the header of the encoded image in `encoded_image` and determines its
/// format and size from that.
pub fn determine_image_format_and_size_from_header(encoded_image: &[u8]) -> (result: Result<(ImageFormat, ImageSize), Error>)
    ensures
        header_outcome(result, image_type_of_header(encoded_image@), dimensions_of_header(encoded_image@)),
{
    let detected = detect_image_type(encoded_image);
    let decodable = match &detected {
        Ok((kind, _)) => format_from_kind(*kind).is_some(),
        Err(_) => false,
    };
    if !decodable {
        // The size is only read for a format roseate decodes.
        return format_and_size_from_header_results(detected, Err(String::new()));
    }
    let dimensions = read_dimensions(encoded_image);
    format_and_size_from_header_results(detected, dimensions)
}

} // verus!
