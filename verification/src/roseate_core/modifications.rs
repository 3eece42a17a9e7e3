//! Modifications the decoding core can apply to an image.
use vstd::prelude::*;

verus! {

#[derive(Debug, Clone, Copy, PartialEq, Eq, Hash, Structural)]
pub enum ImageModification {
    /// Resizes the image to this width and height.
    Resize(u32, u32),
}

} // verus!
