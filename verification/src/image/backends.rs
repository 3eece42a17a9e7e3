use vstd::prelude::*;

verus! {

/// The backends that can decode and manipulate an image.
#[derive(Debug, Clone, Copy, PartialEq, Eq, Structural)]
pub enum ImageProcessingBackend {
    /// Uses the image-rs rust crate for decoding and image manipulation.
    /// This is by far the most stable backend.
    ImageRS,
    /// Uses zune-image for decoding but roseate's own
    /// methods for image manipulation.
    ZuneImage,
    /// Uses Roseate's own backend for image processing and manipulation.
    /// It is very fast for downsampling images but is VERY EXPERIMENTAL.
    Roseate,
}

#[derive(Debug, Clone, Copy, PartialEq, Eq, Structural)]
pub enum ImageDecodePipelineKind {
    ImageRS,
    ZuneImage,
}

pub enum ImageDecodePipeline<'a> {
    ImageRS(&'a [u8]),
}

#[derive(Debug, Clone, Copy, PartialEq, Eq, Structural)]
pub enum ModificationProcessingMeatKind {
    ImageRS,
    Roseate,
}

/// Which decode pipeline a backend uses.
pub open spec fn decode_pipeline_of(backend: ImageProcessingBackend) -> ImageDecodePipelineKind {
    match backend {
        ImageProcessingBackend::ImageRS => ImageDecodePipelineKind::ImageRS,
        _ => ImageDecodePipelineKind::ZuneImage,
    }
}

/// Which modification processing a backend uses.
pub open spec fn modification_meat_of(backend: ImageProcessingBackend) -> ModificationProcessingMeatKind {
    match backend {
        ImageProcessingBackend::ImageRS => ModificationProcessingMeatKind::ImageRS,
        _ => ModificationProcessingMeatKind::Roseate,
    }
}

impl ImageProcessingBackend {
    pub fn get_decode_pipeline(&self) -> (kind: ImageDecodePipelineKind)
        ensures
            kind == decode_pipeline_of(*self),
    {
        match self {
            ImageProcessingBackend::ImageRS => ImageDecodePipelineKind::ImageRS,
            ImageProcessingBackend::ZuneImage => ImageDecodePipelineKind::ZuneImage,
            ImageProcessingBackend::Roseate => ImageDecodePipelineKind::ZuneImage,
        }
    }

    pub fn get_modification_processing_meat(&self) -> (kind: ModificationProcessingMeatKind)
        ensures
            kind == modification_meat_of(*self),
    {
        match self {
            ImageProcessingBackend::ImageRS => ModificationProcessingMeatKind::ImageRS,
            ImageProcessingBackend::ZuneImage => ModificationProcessingMeatKind::Roseate,
            ImageProcessingBackend::Roseate => ModificationProcessingMeatKind::Roseate,
        }
    }
}

} // verus!
