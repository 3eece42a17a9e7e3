//! The current generation of the configuration file's sections.
//!
//! The `*_default` functions give the value a setting takes when the
//! configuration file leaves it out.
use vstd::prelude::*;

pub mod image;
pub mod misc;
pub mod ui;

verus! {

pub struct LoadingGUISettings {
    pub lazy_loading: bool,
}

pub struct InitialSettings {
    pub lazy_loading: bool,
}

pub struct DynamicSettings {
    pub lazy_loading: bool,
}

pub struct ImageLoading {
    pub gui: LoadingGUISettings,
    pub initial: InitialSettings,
    pub dynamic: DynamicSettings,
}

pub struct InfoBoxBinds {
    pub toggle: String,
}

pub struct ImageBinds {
    pub reset_pos: String,
}

pub struct UIControlsBinds {
    pub toggle: String,
}

pub struct Keybinds {
    pub info_box: InfoBoxBinds,
    pub image: ImageBinds,
    pub ui_controls: UIControlsBinds,
}

/// The value of a setting that the file leaves out and whose
/// fallback is `true_default`.
pub fn true_default() -> (value: bool)
    ensures
        value,
{
    true
}

/// The value of a setting that the file leaves out and whose
/// fallback is `false_default`. Note that this fallback is `true`:
/// a setting falling back on it is switched on when the file is silent.
pub fn false_default() -> (value: bool)
    ensures
        value,
{
    true
}

/// The key that toggles the info box when the file names none.
pub fn info_box_toggle() -> (key: String)
    ensures
        key@ == "I"@,
{
    String::from_str("I")
}

/// The key that resets the image position when the file names none.
pub fn image_reset_pos() -> (key: String)
    ensures
        key@ == "R"@,
{
    String::from_str("R")
}

/// The key that toggles the UI controls when the file names none.
pub fn ui_controls_toggle() -> (key: String)
    ensures
        key@ == "C"@,
{
    String::from_str("C")
}

/// The image loading settings a section starts with when it is left out:
/// lazy loading in the GUI and for dynamic loads, but not initially.
pub open spec fn is_default_image_loading(loading: ImageLoading) -> bool {
    &&& loading.gui.lazy_loading
    &&& !loading.initial.lazy_loading
    &&& loading.dynamic.lazy_loading
}

/// The key binds a section starts with when it is left out.
pub open spec fn is_default_keybinds(keybinds: Keybinds) -> bool {
    &&& keybinds.info_box.toggle@ == "I"@
    &&& keybinds.image.reset_pos@ == "R"@
    &&& keybinds.ui_controls.toggle@ == "C"@
}

impl Default for LoadingGUISettings {
    fn default() -> (settings: Self)
        ensures
            settings.lazy_loading,
    {
        Self { lazy_loading: true }
    }
}

impl Default for InitialSettings {
    fn default() -> (settings: Self)
        ensures
            !settings.lazy_loading,
    {
        Self { lazy_loading: false }
    }
}

impl Default for DynamicSettings {
    fn default() -> (settings: Self)
        ensures
            settings.lazy_loading,
    {
        Self { lazy_loading: true }
    }
}

impl Default for ImageLoading {
    fn default() -> (loading: Self)
        ensures
            is_default_image_loading(loading),
    {
        Self {
            gui: LoadingGUISettings::default(),
            initial: InitialSettings::default(),
            dynamic: DynamicSettings::default(),
        }
    }
}

impl Default for InfoBoxBinds {
    fn default() -> (binds: Self)
        ensures
            binds.toggle@ == "I"@,
    {
        Self { toggle: info_box_toggle() }
    }
}

impl Default for ImageBinds {
    fn default() -> (binds: Self)
        ensures
            binds.reset_pos@ == "R"@,
    {
        Self { reset_pos: image_reset_pos() }
    }
}

impl Default for UIControlsBinds {
    fn default() -> (binds: Self)
        ensures
            binds.toggle@ == "C"@,
    {
        Self { toggle: ui_controls_toggle() }
    }
}

impl Default for Keybinds {
    fn default() -> (keybinds: Self)
        ensures
            is_default_keybinds(keybinds),
    {
        Self {
            info_box: InfoBoxBinds::default(),
            image: ImageBinds::default(),
            ui_controls: UIControlsBinds::default(),
        }
    }
}

} // verus!
