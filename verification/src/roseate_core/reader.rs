//! What a decoding backend reads an image from.
use vstd::prelude::*;
use vstd::std_specs::convert::FromSpecImpl;
use crate::roseate_core::decoded_image::DecodedImage;
use crate::roseate_core::format::ImageFormat;

verus! {

pub enum ImageReaderData {
    /// The bytes of an encoded image file.
    EncodedImage(Vec<u8>),
    /// An image that was already decoded.
    DecodedImage(DecodedImage),
}

impl From<Vec<u8>> for ImageReaderData {
    fn from(bytes: Vec<u8>) -> (data: Self) {
        Self::EncodedImage(bytes)
    }
}

impl FromSpecImpl<Vec<u8>> for ImageReaderData {
    open spec fn obeys_from_spec() -> bool {
        true
    }

    open spec fn from_spec(bytes: Vec<u8>) -> Self {
        Self::EncodedImage(bytes)
    }
}

impl From<DecodedImage> for ImageReaderData {
    fn from(image: DecodedImage) -> (data: Self) {
        Self::DecodedImage(image)
    }
}

impl FromSpecImpl<DecodedImage> for ImageReaderData {
    open spec fn obeys_from_spec() -> bool {
        true
    }

    open spec fn from_spec(image: DecodedImage) -> Self {
        Self::DecodedImage(image)
    }
}

pub struct ImageReader {
    pub data: ImageReaderData,
    pub image_format: ImageFormat,
}

impl ImageReader {
    pub fn new<T: Into<ImageReaderData>>(data: T, image_format: ImageFormat) -> (reader: Self)
        ensures
            call_ensures(T::into, (data,), reader.data),
            reader.image_format == image_format,
    {
        Self { data: data.into(), image_format }
    }
}

} // verus!
