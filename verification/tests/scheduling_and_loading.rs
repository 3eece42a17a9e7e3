use std::time::Duration;

use roseate::image::backends::{ImageDecodePipelineKind, ImageProcessingBackend, ModificationProcessingMeatKind};
use roseate::image_loader::ImageLoader;
use roseate::scheduler::Scheduler;
use roseate::settings::SettingsMenu;

#[test]
fn scheduler_runs_its_callback_once_after_the_delay() {
    let mut scheduler = Scheduler::new(|| 7, Duration::from_secs(0));
    assert!(!scheduler.done);
    assert_eq!(scheduler.update(), Some(7));
    assert!(scheduler.done);
    assert_eq!(scheduler.update(), None);
    assert_eq!(scheduler.update(), None);
}

#[test]
fn scheduler_waits_for_its_delay() {
    let mut scheduler = Scheduler::new(|| (), Duration::from_secs(3600));
    assert_eq!(scheduler.update(), None);
    assert!(!scheduler.done);
}

#[test]
fn scheduler_counts_its_callback_runs() {
    let mut runs = 0;
    let mut scheduler = Scheduler::new(
        move || {
            runs += 1;
            runs
        },
        Duration::from_millis(0),
    );
    assert_eq!(scheduler.update(), Some(1));
    assert_eq!(scheduler.update(), None);
}

#[test]
fn image_loader_refuses_a_second_load_while_loading() {
    let mut loader = ImageLoader::new();
    assert!(!loader.image_loaded);
    assert!(loader.start_loading());
    assert!(!loader.start_loading());
}

#[test]
fn image_loader_update_reads_the_shared_flag() {
    let mut loader = ImageLoader::new();
    assert!(loader.start_loading());
    *loader.loaded_flag().lock().unwrap() = true;
    loader.update();
    assert!(loader.image_loaded);
    // No longer loading, so another load may start.
    assert!(loader.start_loading());
}

#[test]
fn backends_pick_their_pipelines() {
    assert_eq!(ImageProcessingBackend::ImageRS.get_decode_pipeline(), ImageDecodePipelineKind::ImageRS);
    assert_eq!(ImageProcessingBackend::ZuneImage.get_decode_pipeline(), ImageDecodePipelineKind::ZuneImage);
    assert_eq!(ImageProcessingBackend::Roseate.get_decode_pipeline(), ImageDecodePipelineKind::ZuneImage);
    assert_eq!(
        ImageProcessingBackend::ImageRS.get_modification_processing_meat(),
        ModificationProcessingMeatKind::ImageRS
    );
    assert_eq!(
        ImageProcessingBackend::ZuneImage.get_modification_processing_meat(),
        ModificationProcessingMeatKind::Roseate
    );
    assert_eq!(
        ImageProcessingBackend::Roseate.get_modification_processing_meat(),
        ModificationProcessingMeatKind::Roseate
    );
}

#[test]
fn settings_menu_is_created() {
    let _menu = SettingsMenu::new();
}

#[test]
fn scheduler_update_elapsed_follows_the_reading() {
    let mut scheduler = Scheduler::new(|| 3, Duration::from_secs(3600));
    assert_eq!(scheduler.update_elapsed(false), None);
    assert!(!scheduler.done);
    assert_eq!(scheduler.update_elapsed(true), Some(3));
    assert!(scheduler.done);
    assert_eq!(scheduler.update_elapsed(true), None);
}

#[test]
fn image_loader_takes_flag_readings() {
    let mut loader = ImageLoader::new();
    assert!(loader.start_loading());
    loader.take_flag_reading(None);
    assert!(!loader.image_loaded);
    assert!(!loader.start_loading());
    loader.take_flag_reading(Some(true));
    assert!(loader.image_loaded);
    assert!(loader.start_loading());
    loader.take_flag_reading(Some(false));
    assert!(!loader.image_loaded);
}

#[test]
fn image_loader_hands_out_its_own_flag() {
    let mut loader = ImageLoader::new();
    let flag = loader.loaded_flag();
    let again = loader.loaded_flag();
    assert!(std::sync::Arc::ptr_eq(&flag, &again));
}

#[test]
fn fresh_image_loader_stays_unloaded() {
    let mut loader = ImageLoader::new();
    loader.update();
    assert!(!loader.image_loaded);
    loader.update();
    assert!(!loader.image_loaded);
    assert!(loader.start_loading());
    loader.update();
    assert!(loader.start_loading());
}

#[test]
fn public_fields_read_through_their_getters() {
    let mut scheduler = Scheduler::new(|| 1, Duration::from_secs(0));
    assert!(!scheduler.done());
    assert_eq!(scheduler.update_elapsed(true), Some(1));
    assert!(scheduler.done() && scheduler.done);
    let mut loader = ImageLoader::new();
    loader.take_flag_reading(Some(true));
    assert!(loader.image_loaded() && loader.image_loaded);
}
