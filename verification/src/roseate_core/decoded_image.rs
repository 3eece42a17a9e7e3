//! Images once they are decoded.
use vstd::prelude::*;
use crate::roseate_core::colour_type::ImageColourType;
use crate::roseate_core::format::ImageFormat;
use crate::roseate_core::image_info::{ImageInfo, ImageSize};
use crate::roseate_core::metadata::ImageMetadata;

verus! {

/// How long an animation frame is shown: `numerator / denominator` milliseconds,
/// as the decoder reports it.
#[derive(Debug, Clone, Copy, PartialEq, Eq, Structural)]
pub struct FrameDelay {
    pub numerator: u32,
    pub denominator: u32,
}

/// The pixels of a decoded image (8 bits per channel).
pub enum DecodedImageContent {
    Static(Vec<u8>),
    /// Each frame's pixels with the time it is shown for.
    Animated(Vec<(Vec<u8>, FrameDelay)>),
}

pub struct DecodedImage {
    pub info: ImageInfo,
    /// The actual size of the decoded image right now,
    /// NOT the original image size (see `info.size` for that).
    pub size: ImageSize,
    pub colour_type: ImageColourType,
    pub content: DecodedImageContent,
}

impl DecodedImage {
    /// A decoded image whose info records the size, format, colour type and metadata
    /// it was decoded with.
    pub fn new(
        size: ImageSize,
        format: ImageFormat,
        colour_type: ImageColourType,
        metadata: ImageMetadata,
        content: DecodedImageContent,
    ) -> (image: Self)
        ensures
            image.size == size,
            image.colour_type == colour_type,
            image.content == content,
            image.info == (ImageInfo { size, format, colour_type, metadata }),
    {
        let info = ImageInfo { size, format, colour_type, metadata: metadata.clone() };
        Self { info, size, colour_type, content }
    }
}

} // verus!
