//! The `[image]` section of the configuration file.
use vstd::prelude::*;

verus! {

pub struct ImageLoading {
    pub gui: LoadingGUISettings,
    pub initial: InitialSettings,
    pub dynamic: DynamicSettings,
}

pub struct LoadingGUISettings {
    pub lazy_loading: bool,
}

pub struct InitialSettings {
    pub lazy_loading: bool,
}

pub struct DynamicSettings {
    pub lazy_loading: bool,
}

/// Lazy loading in the GUI and for dynamic loads, but not initially.
pub open spec fn is_default_image_loading(loading: ImageLoading) -> bool {
    &&& loading.gui.lazy_loading
    &&& !loading.initial.lazy_loading
    &&& loading.dynamic.lazy_loading
}

impl Default for LoadingGUISettings {
    fn default() -> (settings: Self)
        ensures
            settings.lazy_loading,
    {
        Self { lazy_loading: true }
    }
}

impl Default for InitialSettings {
    fn default() -> (settings: Self)
        ensures
            !settings.lazy_loading,
    {
        Self { lazy_loading: false }
    }
}

impl Default for DynamicSettings {
    fn default() -> (settings: Self)
        ensures
            settings.lazy_loading,
    {
        Self { lazy_loading: true }
    }
}

impl Default for ImageLoading {
    fn default() -> (loading: Self)
        ensures
            is_default_image_loading(loading),
    {
        Self {
            gui: LoadingGUISettings::default(),
            initial: InitialSettings::default(),
            dynamic: DynamicSettings::default(),
        }
    }
}

} // verus!
