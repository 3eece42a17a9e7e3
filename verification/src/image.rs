//! The image being viewed: its format, the modifications made to it when it is
//! loaded, and the optimizations that decide them.
use vstd::prelude::*;

pub mod backends;
pub mod decode;
pub mod image;
pub mod image_formats;
pub mod modifications;
pub mod optimization;

verus! {

#[derive(Debug, Clone, Copy, PartialEq, Eq, Structural)]
pub enum ImageOptimization {
    /// Downsamples the image to this width and height.
    ///
    /// Images don't always have to be displayed at their native resolution, especially
    /// when the image is significantly bigger than the monitor can display, so to save
    /// memory the image is downsampled. The image's aspect ratio is preserved: it is
    /// scaled to the largest size that fits within these bounds.
    Downsample(u32, u32),
}

} // verus!
