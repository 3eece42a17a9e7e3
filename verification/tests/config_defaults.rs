use roseate::config;
use roseate::config::models;
use roseate::config::models::image as image_models;
use roseate::config::models::misc::{Experimental, Misc};
use roseate::config::models::ui::MagnificationPanel;

#[test]
fn first_generation_config_defaults() {
    let config = config::Config::default();
    assert_eq!(config.version, 1);
    assert!(config.image.loading.gui.lazy_loading);
    assert!(!config.image.loading.initial.lazy_loading);
    assert!(config.image.loading.dynamic.lazy_loading);
    assert_eq!(config.keybinds.info_box.toggle, "I");
    assert_eq!(config.keybinds.image.reset_pos, "R");
    assert_eq!(config.keybinds.ui_controls.toggle, "C");
}

#[test]
fn first_generation_section_defaults() {
    assert!(config::GUISettings::default().lazy_loading);
    assert!(!config::InitialSettings::default().lazy_loading);
    assert!(config::DynamicSettings::default().lazy_loading);
    assert!(config::Image::default().loading.gui.lazy_loading);
    assert_eq!(config::InfoBoxBinds::default().toggle, "I");
    assert_eq!(config::ImageBinds::default().reset_pos, "R");
    assert_eq!(config::UIControlsBinds::default().toggle, "C");
}

#[test]
fn model_defaults() {
    let loading = models::ImageLoading::default();
    assert!(loading.gui.lazy_loading);
    assert!(!loading.initial.lazy_loading);
    assert!(loading.dynamic.lazy_loading);
    let keybinds = models::Keybinds::default();
    assert_eq!(keybinds.info_box.toggle, "I");
    assert_eq!(keybinds.image.reset_pos, "R");
    assert_eq!(keybinds.ui_controls.toggle, "C");
    assert!(models::LoadingGUISettings::default().lazy_loading);
    assert!(!models::InitialSettings::default().lazy_loading);
    assert!(models::DynamicSettings::default().lazy_loading);
}

#[test]
fn fallbacks_for_settings_left_out() {
    assert!(models::true_default());
    // The fallback named after `false` is `true`.
    assert!(models::false_default());
    assert_eq!(models::info_box_toggle(), "I");
    assert_eq!(models::image_reset_pos(), "R");
    assert_eq!(models::ui_controls_toggle(), "C");
}

#[test]
fn image_section_defaults() {
    let loading = image_models::ImageLoading::default();
    assert!(loading.gui.lazy_loading);
    assert!(!loading.initial.lazy_loading);
    assert!(loading.dynamic.lazy_loading);
    assert!(image_models::LoadingGUISettings::default().lazy_loading);
    assert!(!image_models::InitialSettings::default().lazy_loading);
    assert!(image_models::DynamicSettings::default().lazy_loading);
}

#[test]
fn misc_and_ui_defaults() {
    assert!(!Experimental::default().use_fast_roseate_backend);
    assert!(!Misc::default().experimental.use_fast_roseate_backend);
    assert!(!MagnificationPanel::default().enabled_default);
}
