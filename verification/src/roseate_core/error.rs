//! The errors of the decoding core.
use vstd::prelude::*;

verus! {

#[verifier::external_type_specification]
#[verifier::external_body]
pub struct ExIoError(std::io::Error);

#[derive(Debug)]
pub enum Error {
    IOError(std::io::Error),
    UnsupportedColourType,
    ExifReaderImageMetadataParseFailure { error: String },
    DecodingFailure { error: String },
    DecoderInitFailure { error: String },
    DecoderRetrieveExifFailure { error: String },
    DecoderAnimationCheckFailure { error: String },
    DecoderImageFormatNotSupported { image_format: String, backend: String },
    ImageHeaderReadFailure { stage: String, error: Option<String> },
    ImageFormatNotSupported { image_format: String },
    ImageEncodeFailure { reason: String },
    AnimatedImageHasNoFrames,
}

pub type Result<T> = core::result::Result<T, Error>;

/// The errors that have a message to be shown with; the others are
/// I/O errors and unsupported colour types.
pub open spec fn has_message(error: Error) -> bool {
    !(error is IOError) && !(error is UnsupportedColourType)
}

/// The message an error is shown to the user with.
pub open spec fn error_message(error: Error) -> Seq<char> {
    match error {
        Error::DecodingFailure { .. } =>
            "Decoder failed to decode the image! The image could be corrupted."@,
        Error::DecoderInitFailure { .. } => "Failed to a initialize decoder!"@,
        Error::DecoderRetrieveExifFailure { .. } =>
            "Decoder failed to retrieve image exif chunk!"@,
        Error::DecoderAnimationCheckFailure { .. } =>
            "The backend's decoder unexpectedly failed to check if the image was animated!"@,
        Error::DecoderImageFormatNotSupported { image_format, backend } =>
            "The '"@ + image_format@ + "' backend does not support the '"@ + backend@
                + "' image format!"@,
        Error::ImageHeaderReadFailure { stage, .. } =>
            "We failed to read the image's header, the image is very likely corrupted! Try another image. Stage: "@
                + stage@,
        Error::ImageFormatNotSupported { image_format } =>
            "The image format '"@ + image_format@ + "' is not supported!"@,
        Error::ExifReaderImageMetadataParseFailure { .. } =>
            "Exif reader failed to parse image exif tags!"@,
        Error::ImageEncodeFailure { .. } => "Failed to encode image, the image may be corrupted!"@,
        Error::AnimatedImageHasNoFrames =>
            "This animated image looks to be corrupted, it has no frames! Are you sure this image is sound? Perhaps try another image."@,
        _ => Seq::empty(),
    }
}

impl Error {
    /// The message the error is shown to the user with.
    pub fn message(&self) -> (message: String)
        requires
            has_message(*self),
        ensures
            message@ == error_message(*self),
    {
        match self {
            Error::DecodingFailure { .. } => String::from_str(
                "Decoder failed to decode the image! The image could be corrupted.",
            ),
            Error::DecoderInitFailure { .. } => String::from_str("Failed to a initialize decoder!"),
            Error::DecoderRetrieveExifFailure { .. } => String::from_str(
                "Decoder failed to retrieve image exif chunk!",
            ),
            Error::DecoderAnimationCheckFailure { .. } => String::from_str(
                "The backend's decoder unexpectedly failed to check if the image was animated!",
            ),
            Error::DecoderImageFormatNotSupported { image_format, backend } => {
                let mut text = String::from_str("The '");
                text.append(image_format.as_str());
                text.append("' backend does not support the '");
                text.append(backend.as_str());
                text.append("' image format!");
                text
            },
            Error::ImageHeaderReadFailure { stage, .. } => {
                let mut text = String::from_str(
                    "We failed to read the image's header, the image is very likely corrupted! Try another image. Stage: ",
                );
                text.append(stage.as_str());
                text
            },
            Error::ImageFormatNotSupported { image_format } => {
                let mut text = String::from_str("The image format '");
                text.append(image_format.as_str());
                text.append("' is not supported!");
                text
            },
            Error::ExifReaderImageMetadataParseFailure { .. } => String::from_str(
                "Exif reader failed to parse image exif tags!",
            ),
            Error::ImageEncodeFailure { .. } => String::from_str(
                "Failed to encode image, the image may be corrupted!",
            ),
            Error::AnimatedImageHasNoFrames => String::from_str(
                "This animated image looks to be corrupted, it has no frames! Are you sure this image is sound? Perhaps try another image.",
            ),
            Error::IOError(_) | Error::UnsupportedColourType => {
                proof {
                    assert(false);
                }
                String::new()
            },
        }
    }
}

} // verus!
