//! The `[ui]` section of the configuration file.
use vstd::prelude::*;

verus! {

pub struct MagnificationPanel {
    pub enabled_default: bool,
}

impl Default for MagnificationPanel {
    fn default() -> (panel: Self)
        ensures
            !panel.enabled_default,
    {
        Self { enabled_default: false }
    }
}

} // verus!
