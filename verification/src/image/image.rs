//! Decisions about loading and reloading the image's pixels.
use vstd::prelude::*;
use crate::image::modifications::ImageModifications;

verus! {

/// Width and height, in pixels.
pub type ImageSizeT = (u32, u32);

/// The size a set of modifications resizes to, if it resizes.
pub open spec fn resize_of(modifications: Option<ImageModifications>) -> Option<ImageSizeT> {
    match modifications {
        Some(ImageModifications::Resize(size)) => Some(size),
        None => None,
    }
}

/// Checks whether two sets of modifications are the same by deep comparing them:
/// both empty, or both resizing to the same width and height.
pub fn are_modifications_the_same(a: &Option<ImageModifications>, b: &Option<ImageModifications>) -> (same: bool)
    ensures
        same == (resize_of(*a) == resize_of(*b)),
{
    match (a, b) {
        (None, None) => true,
        (Some(ImageModifications::Resize(a_size)), Some(ImageModifications::Resize(b_size))) =>
            a_size.0 == b_size.0 && a_size.1 == b_size.1,
        _ => false,
    }
}

/// Whether the pixels in memory, which were loaded with the `current` modifications,
/// cannot give the image `to_apply` asks for: it asks for a larger width or height than
/// the current resize, or for no resize at all where the image in memory was resized.
pub open spec fn outside_memory_bounds(
    current: Option<ImageModifications>,
    to_apply: Option<ImageModifications>,
) -> bool {
    match (resize_of(current), resize_of(to_apply)) {
        (None, _) => false,
        (Some(_), None) => true,
        (Some(current_size), Some(size)) => size.0 > current_size.0 || size.1 > current_size.1,
    }
}

/// Whether applying `modifications_to_apply` needs data that the image in memory,
/// loaded with the `current` modifications, does not have.
pub fn are_modifications_outside_memory_bounds(
    current: &Option<ImageModifications>,
    modifications_to_apply: &Option<ImageModifications>,
) -> (outside: bool)
    ensures
        outside == outside_memory_bounds(*current, *modifications_to_apply),
{
    match (current, modifications_to_apply) {
        (
            Some(ImageModifications::Resize((current_width, current_height))),
            Some(ImageModifications::Resize((width, height))),
        ) => *width > *current_width || *height > *current_height,
        (Some(ImageModifications::Resize(_)), None) => true,
        (None, _) => false,
    }
}

/// Where a reload of the image gets its pixels from.
#[derive(Debug, Clone, Copy, PartialEq, Eq, Structural)]
pub enum ReloadSource {
    /// The requested modifications are the current ones: there is nothing to reload.
    Unchanged,
    /// The pixels in memory are enough to apply the requested modifications.
    Memory,
    /// The image has to be decoded from disk again.
    Disk,
}

/// Where reloading the image with `requested` modifications, when it was loaded with
/// `current` ones, gets its pixels from.
pub open spec fn reload_source_of(
    current: Option<ImageModifications>,
    requested: Option<ImageModifications>,
) -> ReloadSource {
    if resize_of(requested) == resize_of(current) {
        ReloadSource::Unchanged
    } else if outside_memory_bounds(current, requested) {
        ReloadSource::Disk
    } else {
        ReloadSource::Memory
    }
}

/// Decides how the image is reloaded: not at all when the modifications are the same,
/// from memory when possible, and from disk when the modifications make it impossible
/// to load from memory.
pub fn reload_source(
    current: &Option<ImageModifications>,
    requested: &Option<ImageModifications>,
) -> (source: ReloadSource)
    ensures
        source == reload_source_of(*current, *requested),
{
    if are_modifications_the_same(requested, current) {
        ReloadSource::Unchanged
    } else if are_modifications_outside_memory_bounds(current, requested) {
        ReloadSource::Disk
    } else {
        ReloadSource::Memory
    }
}

/// Reloading with the modifications the image already has reloads nothing, and a
/// resize to a size no larger in either direction than the current resize is served
/// from memory, while growing past it or dropping it needs the disk.
pub proof fn lemma_reload_uses_memory_when_possible(
    current: Option<ImageModifications>,
    requested: Option<ImageModifications>,
)
    ensures
        resize_of(requested) == resize_of(current) ==> reload_source_of(current, requested)
            == ReloadSource::Unchanged,
        resize_of(requested) != resize_of(current) ==> match (resize_of(current), resize_of(requested)) {
            (Some(c), Some(r)) => (r.0 <= c.0 && r.1 <= c.1) == (reload_source_of(current, requested)
                == ReloadSource::Memory),
            (Some(_), None) => reload_source_of(current, requested) == ReloadSource::Disk,
            (None, _) => reload_source_of(current, requested) == ReloadSource::Memory,
        },
{
}

/// Comparing modifications is an equivalence: every set is the same as itself, and the
/// comparison does not depend on the order of its arguments.
pub proof fn lemma_modifications_comparison_is_equivalence(
    a: Option<ImageModifications>,
    b: Option<ImageModifications>,
    c: Option<ImageModifications>,
)
    ensures
        resize_of(a) == resize_of(a),
        (resize_of(a) == resize_of(b)) == (resize_of(b) == resize_of(a)),
        resize_of(a) == resize_of(b) && resize_of(b) == resize_of(c) ==> resize_of(a) == resize_of(c),
{
}

} // verus!
