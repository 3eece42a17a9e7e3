//! The `[misc]` section of the configuration file.
use vstd::prelude::*;
use crate::image::backends::ImageProcessingBackend;

verus! {

pub struct Misc {
    pub experimental: Experimental,
}

pub struct Experimental {
    pub use_fast_roseate_backend: bool,
}

impl Default for Experimental {
    fn default() -> (experimental: Self)
        ensures
            !experimental.use_fast_roseate_backend,
    {
        Self { use_fast_roseate_backend: false }
    }
}

impl Default for Misc {
    fn default() -> (misc: Self)
        ensures
            !misc.experimental.use_fast_roseate_backend,
    {
        Self { experimental: Experimental::default() }
    }
}

impl Experimental {
    /// The backend images are processed with: roseate's own fast backend when the
    /// user opted into it, image-rs otherwise.
    pub fn get_image_processing_backend(&self) -> (backend: ImageProcessingBackend)
        ensures
            backend == if self.use_fast_roseate_backend {
                ImageProcessingBackend::Roseate
            } else {
                ImageProcessingBackend::ImageRS
            },
    {
        if self.use_fast_roseate_backend {
            ImageProcessingBackend::Roseate
        } else {
            ImageProcessingBackend::ImageRS
        }
    }
}

} // verus!
