//! The optimizations the image handler can apply to an image.
use vstd::prelude::*;
use crate::text::{decimal, decimal_text};

verus! {

#[derive(Debug, Clone, Copy, PartialEq, Eq, Hash, Structural)]
pub enum ImageOptimizations {
    /// Downsamples the image roughly to the resolution of your monitor.
    ///
    /// Images don't always have to be displayed at their full native resolution, especially
    /// when the image is significantly bigger than your monitor can even display, so to save
    /// memory we downsample the image. The value is the marginal allowance in hundredths
    /// (`130` stands for `1.3`).
    MonitorDownsampling(u32),
    /// The image is dynamically sampled up and down relative to the zoom factor, bringing
    /// back detail lost to downsampling when the user zooms in.
    DynamicSampling(bool, bool),
}

/// The identifier of the kind of an optimization.
pub open spec fn optimization_id(optimization: ImageOptimizations) -> Seq<char> {
    match optimization {
        ImageOptimizations::MonitorDownsampling(_) => "monitor-downsampling"@,
        ImageOptimizations::DynamicSampling(_, _) => "dynamic-sampling"@,
    }
}

/// Whether two optimizations are of the same kind, whatever their parameters.
pub open spec fn same_kind(a: ImageOptimizations, b: ImageOptimizations) -> bool {
    (a is MonitorDownsampling) == (b is MonitorDownsampling)
}

/// The text an optimization is shown with.
pub open spec fn optimization_text(optimization: ImageOptimizations) -> Seq<char> {
    match optimization {
        ImageOptimizations::MonitorDownsampling(marginal_factor) =>
            "Monitor Downsampling (@ "@ + decimal((marginal_factor / 100) as nat) + ")"@,
        ImageOptimizations::DynamicSampling(_, _) => "Dynamic Sampling"@,
    }
}

impl ImageOptimizations {
    pub fn id(&self) -> (id: &str)
        ensures
            id@ == optimization_id(*self),
    {
        match self {
            Self::MonitorDownsampling(_) => "monitor-downsampling",
            Self::DynamicSampling(_, _) => "dynamic-sampling",
        }
    }

    /// The text the optimization is shown with, such as `Monitor Downsampling (@ 1)`.
    pub fn description(&self) -> (text: String)
        ensures
            text@ == optimization_text(*self),
    {
        match self {
            Self::MonitorDownsampling(marginal_factor) => {
                let mut text = String::from_str("Monitor Downsampling (@ ");
                text.append(decimal_text((*marginal_factor / 100) as u64).as_str());
                text.append(")");
                text
            },
            Self::DynamicSampling(_, _) => String::from_str("Dynamic Sampling"),
        }
    }
}

/// Two optimizations have the same identifier exactly when they are of the same kind.
pub proof fn lemma_id_identifies_kind(a: ImageOptimizations, b: ImageOptimizations)
    ensures
        (optimization_id(a) == optimization_id(b)) <==> same_kind(a, b),
{
    reveal_strlit("monitor-downsampling");
    reveal_strlit("dynamic-sampling");
    if !same_kind(a, b) {
        assert(optimization_id(a)[0] != optimization_id(b)[0]);
    }
}

} // verus!
