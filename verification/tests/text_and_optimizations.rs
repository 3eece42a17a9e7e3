use roseate::image::optimization::{
    has_optimization, EventImageOptimizations, ImageOptimizations, InitialImageOptimizations,
};
use roseate::image_handler::optimization::ImageOptimizations as HandlerOptimizations;
use roseate::text::{decimal_text, join_with_newlines};

#[test]
fn decimal_text_matches_format() {
    for n in [0u64, 7, 10, 99, 100, 1234, 4_294_967_295, u64::MAX] {
        assert_eq!(decimal_text(n), format!("{}", n));
    }
}

#[test]
fn join_with_newlines_matches_join() {
    let lines = vec!["a".to_string(), "bc".to_string(), "".to_string(), "d".to_string()];
    assert_eq!(join_with_newlines(&lines), lines.join("\n"));
    assert_eq!(join_with_newlines(&vec![]), "");
    assert_eq!(join_with_newlines(&vec!["only".to_string()]), "only");
}

#[test]
fn handler_optimization_ids_and_descriptions() {
    assert_eq!(HandlerOptimizations::MonitorDownsampling(130).id(), "monitor-downsampling");
    assert_eq!(HandlerOptimizations::DynamicSampling(true, false).id(), "dynamic-sampling");
    assert_eq!(
        HandlerOptimizations::MonitorDownsampling(130).description(),
        "Monitor Downsampling (@ 1)"
    );
    assert_eq!(
        HandlerOptimizations::MonitorDownsampling(250).description(),
        "Monitor Downsampling (@ 2)"
    );
    assert_eq!(
        HandlerOptimizations::MonitorDownsampling(99).description(),
        "Monitor Downsampling (@ 0)"
    );
    assert_eq!(HandlerOptimizations::DynamicSampling(false, false).description(), "Dynamic Sampling");
}

#[test]
fn image_optimization_ids_and_descriptions() {
    let monitor = ImageOptimizations::Initial(InitialImageOptimizations::MonitorDownsampling(130));
    let down = ImageOptimizations::EventBased(EventImageOptimizations::DynamicDownsampling);
    let up = ImageOptimizations::EventBased(EventImageOptimizations::DynamicUpsampling);
    assert_eq!(monitor.id(), "monitor-downsampling");
    assert_eq!(down.id(), "dynamic-downsampling");
    assert_eq!(up.id(), "dynamic-upsampling");
    assert_eq!(monitor.description(), "Monitor Downsampling");
    assert_eq!(down.description(), "Dynamic Downsampling");
    assert_eq!(up.description(), "Dynamic Upsampling");
}

#[test]
fn has_optimization_finds_by_type() {
    let optimizations = vec![
        ImageOptimizations::EventBased(EventImageOptimizations::DynamicUpsampling),
        ImageOptimizations::Initial(InitialImageOptimizations::MonitorDownsampling(130)),
    ];
    let wanted = ImageOptimizations::Initial(InitialImageOptimizations::MonitorDownsampling(0));
    assert_eq!(
        has_optimization(&optimizations, &wanted),
        Some(&ImageOptimizations::Initial(InitialImageOptimizations::MonitorDownsampling(130)))
    );
    let down = ImageOptimizations::EventBased(EventImageOptimizations::DynamicDownsampling);
    assert_eq!(has_optimization(&optimizations, &down), None);
    assert_eq!(has_optimization(&[], &wanted), None);
}
