//! What is known of an image once it has been decoded.
use vstd::prelude::*;
use crate::roseate_core::colour_type::ImageColourType;
use crate::roseate_core::format::ImageFormat;
use crate::roseate_core::metadata::ImageMetadata;

verus! {

/// Width and height, in pixels.
pub type ImageSize = (u32, u32);

pub struct ImageInfo {
    pub size: ImageSize,
    pub format: ImageFormat,
    pub colour_type: ImageColourType,
    pub metadata: ImageMetadata,
}

impl Clone for ImageInfo {
    fn clone(&self) -> (copy: Self)
        ensures
            copy == *self,
    {
        Self {
            size: self.size,
            format: self.format,
            colour_type: self.colour_type,
            metadata: self.metadata.clone(),
        }
    }
}

} // verus!
