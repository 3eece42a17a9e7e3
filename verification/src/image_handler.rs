//! Decisions the image handler makes about how the image is to be loaded.
use vstd::prelude::*;
use crate::image::image::{ImageSizeT, resize_of};
use crate::image::image_formats::ImageFormat;
use crate::image::modifications::ImageModifications;
use crate::image::optimization::{EventImageOptimizations, ImageOptimizations, InitialImageOptimizations};

pub mod optimization;

verus! {

/// What the image handler remembers between loads about the sizes it sampled the image to.
#[derive(Debug, Clone, Copy)]
pub struct ModificationState {
    /// The resolution dynamic sampling asks the image to be sampled to next.
    pub dynamic_sampling_new_resolution: ImageSizeT,
    /// The resolution dynamic sampling last sampled the image to.
    pub dynamic_sampling_old_resolution: ImageSizeT,
    /// Whether the image is big enough for monitor downsampling to apply.
    pub monitor_downsampling_required: bool,
}

impl ModificationState {
    pub fn new() -> (state: Self)
        ensures
            state.dynamic_sampling_new_resolution == (0u32, 0u32),
            state.dynamic_sampling_old_resolution == (0u32, 0u32),
            !state.monitor_downsampling_required,
    {
        Self {
            dynamic_sampling_new_resolution: (0, 0),
            dynamic_sampling_old_resolution: (0, 0),
            monitor_downsampling_required: false,
        }
    }
}

/// Whether an image of `format` gets modifications at all: SVGs and GIFs do not.
pub open spec fn can_be_modified(format: ImageFormat) -> bool {
    !(format is Svg) && !(format is Gif)
}

/// The modifications to make to an image of `image_size` and the state after deciding
/// them, given the monitor downsampling size (`None` when the user has no monitor
/// downsampling) and whether the user has dynamic sampling:
/// - monitor downsampling resizes to its size an image bigger than it in both directions,
///   and records that it is required;
/// - then, when dynamic sampling asks for a resolution other than the last one sampled,
///   it resizes to that resolution, or, when that resolution is the image's full size,
///   removes any resize; either way it records the resolution as the last one sampled.
pub open spec fn planned_modifications(
    state: ModificationState,
    image_format: ImageFormat,
    image_size: ImageSizeT,
    monitor_downsampling_size: Option<ImageSizeT>,
    dynamic_sampling: bool,
) -> (Option<ImageSizeT>, ModificationState) {
    if !can_be_modified(image_format) {
        (None, state)
    } else {
        let (downsampled, state1) = match monitor_downsampling_size {
            Some(size) => if image_size.0 > size.0 && image_size.1 > size.1 {
                (Some(size), ModificationState { monitor_downsampling_required: true, ..state })
            } else {
                (None, state)
            },
            None => (None, state),
        };
        let new_resolution = state1.dynamic_sampling_new_resolution;
        if dynamic_sampling && new_resolution != state1.dynamic_sampling_old_resolution {
            if new_resolution != image_size {
                (
                    Some(new_resolution),
                    ModificationState { dynamic_sampling_old_resolution: new_resolution, ..state1 },
                )
            } else {
                (None, ModificationState { dynamic_sampling_old_resolution: image_size, ..state1 })
            }
        } else {
            (downsampled, state1)
        }
    }
}

/// Chooses which modifications should be made to the image at this time, from the
/// optimizations the user applied, the size of the monitor and how far dynamic sampling
/// asks the image to be sampled. `image` is the format and size of the image, if there is
/// one; `monitor_downsampling_size` is the size monitor downsampling brings the image to,
/// if the user has monitor downsampling; `dynamic_sampling` tells whether the user has
/// dynamic sampling.
pub fn get_image_modifications(
    state: &mut ModificationState,
    image: Option<(ImageFormat, ImageSizeT)>,
    monitor_downsampling_size: Option<ImageSizeT>,
    dynamic_sampling: bool,
) -> (modifications: Option<ImageModifications>)
    ensures
        image is None ==> modifications is None && *final(state) == *old(state),
        image matches Some((format, size)) ==> {
            let (resize, new_state) = planned_modifications(
                *old(state),
                format,
                size,
                monitor_downsampling_size,
                dynamic_sampling,
            );
            &&& resize_of(modifications) == resize
            &&& *final(state) == new_state
        },
        !dynamic_sampling ==> match (image, monitor_downsampling_size) {
            (Some((format, image_size)), Some(size)) => can_be_modified(format) ==> {
                &&& (resize_of(modifications) == Some(size)) == (image_size.0 > size.0 && image_size.1 > size.1)
                &&& (resize_of(modifications) is None) == !(image_size.0 > size.0 && image_size.1 > size.1)
                &&& final(state).monitor_downsampling_required == (old(state).monitor_downsampling_required
                    || (image_size.0 > size.0 && image_size.1 > size.1))
            },
            _ => resize_of(modifications) is None,
        },
{
    let (image_format, image_size) = match image {
        Some(image) => image,
        None => return None,
    };
    // SVG and GIFs should not get image modifications.
    if let ImageFormat::Svg | ImageFormat::Gif = image_format {
        return None;
    }
    let mut modifications: Option<ImageModifications> = None;
    if let Some((width, height)) = monitor_downsampling_size {
        // If the image is a lot bigger than the user's monitor then apply
        // monitor downsampling, if not we shouldn't.
        if image_size.0 > width && image_size.1 > height {
            state.monitor_downsampling_required = true;
            modifications = Some(ImageModifications::Resize((width, height)));
        }
    }
    if dynamic_sampling {
        let new_resolution = state.dynamic_sampling_new_resolution;
        let old_resolution = state.dynamic_sampling_old_resolution;
        if !(new_resolution.0 == old_resolution.0 && new_resolution.1 == old_resolution.1) {
            if !(new_resolution.0 == image_size.0 && new_resolution.1 == image_size.1) {
                modifications = Some(ImageModifications::Resize(new_resolution));
                state.dynamic_sampling_old_resolution = new_resolution;
            } else {
                // Dynamic sampling is asking for the full resolution already.
                modifications = None;
                state.dynamic_sampling_old_resolution = image_size;
            }
        }
    }
    modifications
}

/// Without dynamic sampling, monitor downsampling resizes an image to the downsampling size
/// exactly when the image is bigger than it in width and in height, each compared with its
/// own dimension, and only then records that it is required.
pub proof fn lemma_monitor_downsampling_compares_each_dimension(
    state: ModificationState,
    image_format: ImageFormat,
    image_size: ImageSizeT,
    size: ImageSizeT,
)
    requires
        can_be_modified(image_format),
    ensures
        ({
            let (resize, new_state) = planned_modifications(state, image_format, image_size, Some(size), false);
            &&& (resize == Some(size)) == (image_size.0 > size.0 && image_size.1 > size.1)
            &&& (resize is None) == !(image_size.0 > size.0 && image_size.1 > size.1)
            &&& new_state.monitor_downsampling_required == (state.monitor_downsampling_required
                || (image_size.0 > size.0 && image_size.1 > size.1))
        }),
{
}

/// SVGs and GIFs never get modifications, and the handler's state is left as it was.
pub proof fn lemma_svg_and_gif_are_never_modified(
    state: ModificationState,
    image_format: ImageFormat,
    image_size: ImageSizeT,
    monitor_downsampling_size: Option<ImageSizeT>,
    dynamic_sampling: bool,
)
    requires
        image_format is Svg || image_format is Gif,
    ensures
        planned_modifications(state, image_format, image_size, monitor_downsampling_size, dynamic_sampling)
            == (None::<ImageSizeT>, state),
{
}

/// When dynamic sampling asks for the image's full resolution (and that is not the
/// resolution last sampled), no resize is made, and the full resolution becomes the one
/// last sampled.
pub proof fn lemma_full_resolution_drops_resize(
    state: ModificationState,
    image_format: ImageFormat,
    image_size: ImageSizeT,
    monitor_downsampling_size: Option<ImageSizeT>,
)
    requires
        can_be_modified(image_format),
        state.dynamic_sampling_new_resolution == image_size,
        state.dynamic_sampling_old_resolution != image_size,
    ensures
        ({
            let (resize, new_state) = planned_modifications(
                state,
                image_format,
                image_size,
                monitor_downsampling_size,
                true,
            );
            resize is None && new_state.dynamic_sampling_old_resolution == image_size
        }),
{
}

/// The optimizations the user gets for an image of `image_size` on a monitor of
/// `monitor_size`: monitor downsampling (with a marginal allowance of `1.3`) when the image
/// is bigger than the monitor in both directions, then dynamic upsampling.
pub fn get_user_image_optimisations(image_size: ImageSizeT, monitor_size: ImageSizeT) -> (optimizations: Vec<ImageOptimizations>)
    ensures
        image_size.0 > monitor_size.0 && image_size.1 > monitor_size.1 ==> optimizations@ == seq![
            ImageOptimizations::Initial(InitialImageOptimizations::MonitorDownsampling(130)),
            ImageOptimizations::EventBased(EventImageOptimizations::DynamicUpsampling),
        ],
        !(image_size.0 > monitor_size.0 && image_size.1 > monitor_size.1) ==> optimizations@ == seq![
            ImageOptimizations::EventBased(EventImageOptimizations::DynamicUpsampling),
        ],
{
    let mut optimizations = Vec::new();
    // If the image is a lot bigger than the user's monitor then
    // apply monitor downsampling, if not we shouldn't.
    if image_size.0 > monitor_size.0 && image_size.1 > monitor_size.1 {
        optimizations.push(ImageOptimizations::Initial(InitialImageOptimizations::MonitorDownsampling(130)));
    }
    optimizations.push(ImageOptimizations::EventBased(EventImageOptimizations::DynamicUpsampling));
    optimizations
}

} // verus!
