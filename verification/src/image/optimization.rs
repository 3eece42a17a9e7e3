//! The optimizations roseate applies to an image as it loads it, or on events.
use vstd::prelude::*;

verus! {

#[derive(Debug, Clone, Copy, PartialEq, Eq, Hash, Structural)]
pub enum InitialImageOptimizations {
    /// Downsamples the image roughly to the resolution of your monitor.
    ///
    /// Images don't always have to be displayed at their native resolution, especially
    /// when the image is significantly bigger than your monitor can even display, so to
    /// save memory the image is downsampled. The value is the marginal allowance in
    /// hundredths (`130` stands for `1.3`). The image's aspect ratio is preserved.
    MonitorDownsampling(u32),
}

#[derive(Debug, Clone, Copy, PartialEq, Eq, Hash, Structural)]
pub enum EventImageOptimizations {
    /// The image is dynamically downsampled when full detail is no longer required
    /// (for example, when the user zooms back out).
    DynamicDownsampling,
    /// The image is upsampled relative to how far you zoomed into it, up to its native
    /// resolution, giving back the detail lost to downsampling.
    DynamicUpsampling,
}

#[derive(Debug, Clone, Copy, PartialEq, Eq, Hash, Structural)]
pub enum ImageOptimizations {
    Initial(InitialImageOptimizations),
    EventBased(EventImageOptimizations),
}

/// The identifier of an optimization's type.
pub open spec fn optimization_id(optimization: ImageOptimizations) -> Seq<char> {
    match optimization {
        ImageOptimizations::Initial(InitialImageOptimizations::MonitorDownsampling(_)) => "monitor-downsampling"@,
        ImageOptimizations::EventBased(EventImageOptimizations::DynamicDownsampling) => "dynamic-downsampling"@,
        ImageOptimizations::EventBased(EventImageOptimizations::DynamicUpsampling) => "dynamic-upsampling"@,
    }
}

/// The name an optimization is shown with.
pub open spec fn optimization_text(optimization: ImageOptimizations) -> Seq<char> {
    match optimization {
        ImageOptimizations::Initial(InitialImageOptimizations::MonitorDownsampling(_)) => "Monitor Downsampling"@,
        ImageOptimizations::EventBased(EventImageOptimizations::DynamicDownsampling) => "Dynamic Downsampling"@,
        ImageOptimizations::EventBased(EventImageOptimizations::DynamicUpsampling) => "Dynamic Upsampling"@,
    }
}

/// Whether two optimizations are of the same type, whatever their parameters.
pub open spec fn same_type(a: ImageOptimizations, b: ImageOptimizations) -> bool {
    match (a, b) {
        (ImageOptimizations::Initial(_), ImageOptimizations::Initial(_)) => true,
        (ImageOptimizations::EventBased(x), ImageOptimizations::EventBased(y)) => x == y,
        _ => false,
    }
}

impl ImageOptimizations {
    pub fn id(&self) -> (id: &str)
        ensures
            id@ == optimization_id(*self),
    {
        match self {
            ImageOptimizations::Initial(optimization) => match optimization {
                InitialImageOptimizations::MonitorDownsampling(_) => "monitor-downsampling",
            },
            ImageOptimizations::EventBased(optimization) => match optimization {
                EventImageOptimizations::DynamicDownsampling => "dynamic-downsampling",
                EventImageOptimizations::DynamicUpsampling => "dynamic-upsampling",
            },
        }
    }

    /// The name the optimization is shown with, such as `Monitor Downsampling`.
    pub fn description(&self) -> (text: String)
        ensures
            text@ == optimization_text(*self),
    {
        match self {
            ImageOptimizations::Initial(InitialImageOptimizations::MonitorDownsampling(_)) =>
                String::from_str("Monitor Downsampling"),
            ImageOptimizations::EventBased(EventImageOptimizations::DynamicDownsampling) =>
                String::from_str("Dynamic Downsampling"),
            ImageOptimizations::EventBased(EventImageOptimizations::DynamicUpsampling) =>
                String::from_str("Dynamic Upsampling"),
        }
    }
}

/// Two optimizations have the same identifier exactly when they are of the same type.
pub proof fn lemma_id_identifies_type(a: ImageOptimizations, b: ImageOptimizations)
    ensures
        (optimization_id(a) == optimization_id(b)) <==> same_type(a, b),
{
    reveal_strlit("monitor-downsampling");
    reveal_strlit("dynamic-downsampling");
    reveal_strlit("dynamic-upsampling");
    if !same_type(a, b) {
        if a is Initial || b is Initial {
            assert(optimization_id(a)[0] != optimization_id(b)[0]);
        } else {
            assert(optimization_id(a)[8] != optimization_id(b)[8]);
        }
    }
}

/// Checks whether `optimizations` has an optimization of the same type as
/// `optimization` (not the exact optimization itself), and returns the first one found.
pub fn has_optimization<'a>(optimizations: &'a [ImageOptimizations], optimization: &ImageOptimizations) -> (found: Option<&'a ImageOptimizations>)
    ensures
        found matches Some(f) ==> exists|i: int| 0 <= i < optimizations@.len() && optimizations@[i] == *f
            && same_type(*f, *optimization) && forall|j: int| 0 <= j < i ==> !same_type(optimizations@[j], *optimization),
        found is None ==> forall|i: int| 0 <= i < optimizations@.len() ==> !same_type(optimizations@[i], *optimization),
{
    let mut index: usize = 0;
    while index < optimizations.len()
        invariant
            index <= optimizations@.len(),
            forall|j: int| 0 <= j < index ==> !same_type(optimizations@[j], *optimization),
        decreases optimizations@.len() - index,
    {
        let candidate = &optimizations[index];
        let matches = match (candidate, optimization) {
            (ImageOptimizations::Initial(_), ImageOptimizations::Initial(_)) => true,
            (ImageOptimizations::EventBased(x), ImageOptimizations::EventBased(y)) => *x == *y,
            _ => false,
        };
        if matches {
            return Some(candidate);
        }
        index = index + 1;
    }
    None
}

} // verus!
