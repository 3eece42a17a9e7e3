//! Settings read from roseate's `config.toml`.
//!
//! The structs in this file are the first generation of the configuration
//! file; the current generation lives in [`models`].
use vstd::prelude::*;

pub mod models;

verus! {

pub struct GUISettings {
    pub lazy_loading: bool,
}

pub struct InitialSettings {
    pub lazy_loading: bool,
}

pub struct DynamicSettings {
    pub lazy_loading: bool,
}

pub struct ImageLoading {
    pub gui: GUISettings,
    pub initial: InitialSettings,
    pub dynamic: DynamicSettings,
}

pub struct Image {
    pub loading: ImageLoading,
}

pub struct InfoBoxBinds {
    pub toggle: String,
}

pub struct ImageBinds {
    pub reset_pos: String,
}

pub struct UIControlsBinds {
    pub toggle: String,
}

pub struct Keybinds {
    pub info_box: InfoBoxBinds,
    pub image: ImageBinds,
    pub ui_controls: UIControlsBinds,
}

pub struct Config {
    pub version: i8,
    pub image: Image,
    pub keybinds: Keybinds,
}

/// The image loading settings a fresh configuration starts with:
/// lazy loading in the GUI and for dynamic loads, but not initially.
pub open spec fn is_default_image_loading(loading: ImageLoading) -> bool {
    &&& loading.gui.lazy_loading
    &&& !loading.initial.lazy_loading
    &&& loading.dynamic.lazy_loading
}

/// The key binds a fresh configuration starts with: `I` toggles the info box,
/// `R` resets the image position and `C` toggles the UI controls.
pub open spec fn is_default_keybinds(keybinds: Keybinds) -> bool {
    &&& keybinds.info_box.toggle@ == "I"@
    &&& keybinds.image.reset_pos@ == "R"@
    &&& keybinds.ui_controls.toggle@ == "C"@
}

impl Default for GUISettings {
    fn default() -> (settings: Self)
        ensures
            settings.lazy_loading,
    {
        Self { lazy_loading: true }
    }
}

impl Default for InitialSettings {
    fn default() -> (settings: Self)
        ensures
            !settings.lazy_loading,
    {
        Self { lazy_loading: false }
    }
}

impl Default for DynamicSettings {
    fn default() -> (settings: Self)
        ensures
            settings.lazy_loading,
    {
        Self { lazy_loading: true }
    }
}

impl Default for ImageLoading {
    fn default() -> (loading: Self)
        ensures
            is_default_image_loading(loading),
    {
        Self {
            gui: GUISettings::default(),
            initial: InitialSettings::default(),
            dynamic: DynamicSettings::default(),
        }
    }
}

impl Default for Image {
    fn default() -> (image: Self)
        ensures
            is_default_image_loading(image.loading),
    {
        Self { loading: ImageLoading::default() }
    }
}

impl Default for InfoBoxBinds {
    fn default() -> (binds: Self)
        ensures
            binds.toggle@ == "I"@,
    {
        Self { toggle: String::from_str("I") }
    }
}

impl Default for ImageBinds {
    fn default() -> (binds: Self)
        ensures
            binds.reset_pos@ == "R"@,
    {
        Self { reset_pos: String::from_str("R") }
    }
}

impl Default for UIControlsBinds {
    fn default() -> (binds: Self)
        ensures
            binds.toggle@ == "C"@,
    {
        Self { toggle: String::from_str("C") }
    }
}

impl Default for Keybinds {
    fn default() -> (keybinds: Self)
        ensures
            is_default_keybinds(keybinds),
    {
        Self {
            info_box: InfoBoxBinds::default(),
            image: ImageBinds::default(),
            ui_controls: UIControlsBinds::default(),
        }
    }
}

impl Default for Config {
    fn default() -> (config: Self)
        ensures
            config.version == 1,
            is_default_image_loading(config.image.loading),
            is_default_keybinds(config.keybinds),
    {
        Self { version: 1, image: Image::default(), keybinds: Keybinds::default() }
    }
}

} // verus!
