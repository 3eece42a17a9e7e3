//! Modifications made to an image's pixels when it is loaded.
use vstd::prelude::*;
use crate::image::image::ImageSizeT;
use vstd::std_specs::cmp::PartialEqSpec;

verus! {

/// A modification to apply to an image.
///
/// All modifications count as equal to each other: a set of modifications holds at
/// most one, so the library holds such a set as an `Option<ImageModifications>`.
#[derive(Debug, Clone, Copy)]
pub enum ImageModifications {
    /// Resize the image to this width and height.
    Resize(ImageSizeT),
}

impl PartialEq for ImageModifications {
    fn eq(&self, other: &Self) -> (equal: bool) {
        true
    }
}

impl vstd::std_specs::cmp::PartialEqSpecImpl for ImageModifications {
    open spec fn obeys_eq_spec() -> bool {
        true
    }

    open spec fn eq_spec(&self, other: &Self) -> bool {
        true
    }
}

impl Eq for ImageModifications {}

/// Any two modifications are equal: `==` on them always answers `true`.
pub proof fn lemma_modifications_all_equal(a: ImageModifications, b: ImageModifications)
    ensures
        a.eq_spec(&b),
{
}

} // verus!
