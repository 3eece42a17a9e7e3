use roseate::image::image::{
    are_modifications_outside_memory_bounds, are_modifications_the_same, reload_source, ReloadSource,
};
use roseate::image::image_formats::ImageFormat;
use roseate::image::modifications::ImageModifications;
use roseate::image::optimization::{EventImageOptimizations, ImageOptimizations, InitialImageOptimizations};
use roseate::image_handler::{get_image_modifications, get_user_image_optimisations, ModificationState};

fn resize(width: u32, height: u32) -> Option<ImageModifications> {
    Some(ImageModifications::Resize((width, height)))
}

fn size_of(modifications: Option<ImageModifications>) -> Option<(u32, u32)> {
    modifications.map(|ImageModifications::Resize(size)| size)
}

#[test]
fn all_modifications_compare_equal() {
    assert!(ImageModifications::Resize((1, 2)) == ImageModifications::Resize((3, 4)));
}

#[test]
fn modifications_are_deep_compared() {
    assert!(are_modifications_the_same(&None, &None));
    assert!(are_modifications_the_same(&resize(10, 20), &resize(10, 20)));
    assert!(!are_modifications_the_same(&resize(10, 20), &resize(20, 10)));
    assert!(!are_modifications_the_same(&resize(10, 20), &None));
    assert!(!are_modifications_the_same(&None, &resize(10, 20)));
}

#[test]
fn memory_bounds() {
    assert!(!are_modifications_outside_memory_bounds(&None, &resize(5, 5)));
    assert!(!are_modifications_outside_memory_bounds(&None, &None));
    assert!(are_modifications_outside_memory_bounds(&resize(100, 100), &None));
    assert!(are_modifications_outside_memory_bounds(&resize(100, 100), &resize(101, 50)));
    assert!(are_modifications_outside_memory_bounds(&resize(100, 100), &resize(50, 101)));
    assert!(!are_modifications_outside_memory_bounds(&resize(100, 100), &resize(100, 100)));
    assert!(!are_modifications_outside_memory_bounds(&resize(100, 100), &resize(40, 60)));
}

#[test]
fn reload_uses_memory_when_possible() {
    assert_eq!(reload_source(&resize(100, 100), &resize(100, 100)), ReloadSource::Unchanged);
    assert_eq!(reload_source(&None, &None), ReloadSource::Unchanged);
    assert_eq!(reload_source(&resize(100, 100), &resize(50, 50)), ReloadSource::Memory);
    assert_eq!(reload_source(&None, &resize(50, 50)), ReloadSource::Memory);
    assert_eq!(reload_source(&resize(100, 100), &resize(150, 50)), ReloadSource::Disk);
    assert_eq!(reload_source(&resize(100, 100), &None), ReloadSource::Disk);
}

#[test]
fn monitor_downsampling_applies_to_big_images() {
    let mut state = ModificationState::new();
    let modifications =
        get_image_modifications(&mut state, Some((ImageFormat::Png, (4000, 3000))), Some((2496, 1404)), false);
    assert_eq!(size_of(modifications), Some((2496, 1404)));
    assert!(state.monitor_downsampling_required);
}

#[test]
fn monitor_downsampling_skips_small_images() {
    let mut state = ModificationState::new();
    let modifications =
        get_image_modifications(&mut state, Some((ImageFormat::Png, (4000, 1000))), Some((2496, 1404)), false);
    assert_eq!(size_of(modifications), None);
    assert!(!state.monitor_downsampling_required);
}

#[test]
fn svg_and_gif_get_no_modifications() {
    for format in [ImageFormat::Svg, ImageFormat::Gif] {
        let mut state = ModificationState::new();
        state.dynamic_sampling_new_resolution = (10, 10);
        let modifications =
            get_image_modifications(&mut state, Some((format, (4000, 3000))), Some((100, 100)), true);
        assert_eq!(size_of(modifications), None);
        assert!(!state.monitor_downsampling_required);
        assert_eq!(state.dynamic_sampling_old_resolution, (0, 0));
    }
}

#[test]
fn no_image_gets_no_modifications() {
    let mut state = ModificationState::new();
    assert_eq!(size_of(get_image_modifications(&mut state, None, Some((1, 1)), true)), None);
}

#[test]
fn dynamic_sampling_resizes_to_the_new_resolution() {
    let mut state = ModificationState::new();
    state.dynamic_sampling_new_resolution = (3000, 2250);
    state.dynamic_sampling_old_resolution = (2496, 1872);
    let modifications =
        get_image_modifications(&mut state, Some((ImageFormat::Jpeg, (4000, 3000))), Some((2496, 1404)), true);
    assert_eq!(size_of(modifications), Some((3000, 2250)));
    assert_eq!(state.dynamic_sampling_old_resolution, (3000, 2250));
    assert!(state.monitor_downsampling_required);
}

#[test]
fn dynamic_sampling_to_full_resolution_drops_the_resize() {
    let mut state = ModificationState::new();
    state.dynamic_sampling_new_resolution = (4000, 3000);
    state.dynamic_sampling_old_resolution = (2496, 1872);
    let modifications =
        get_image_modifications(&mut state, Some((ImageFormat::Webp, (4000, 3000))), Some((2496, 1404)), true);
    assert_eq!(size_of(modifications), None);
    assert_eq!(state.dynamic_sampling_old_resolution, (4000, 3000));
}

#[test]
fn dynamic_sampling_at_the_same_resolution_keeps_monitor_downsampling() {
    let mut state = ModificationState::new();
    state.dynamic_sampling_new_resolution = (2496, 1872);
    state.dynamic_sampling_old_resolution = (2496, 1872);
    let modifications =
        get_image_modifications(&mut state, Some((ImageFormat::Png, (4000, 3000))), Some((2496, 1404)), true);
    assert_eq!(size_of(modifications), Some((2496, 1404)));
}

#[test]
fn user_optimisations_depend_on_monitor_size() {
    assert_eq!(
        get_user_image_optimisations((4000, 3000), (1920, 1080)),
        vec![
            ImageOptimizations::Initial(InitialImageOptimizations::MonitorDownsampling(130)),
            ImageOptimizations::EventBased(EventImageOptimizations::DynamicUpsampling),
        ]
    );
    assert_eq!(
        get_user_image_optimisations((1000, 3000), (1920, 1080)),
        vec![ImageOptimizations::EventBased(EventImageOptimizations::DynamicUpsampling)]
    );
}
