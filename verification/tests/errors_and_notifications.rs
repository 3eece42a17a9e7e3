use roseate::error::Error;
use roseate::notifier::{Loading, StringOrError};
use roseate::roseate_core::error::Error as CoreError;
use roseate::toasts::StringOrError as ToastContent;

#[test]
fn viewer_error_messages() {
    let cases = vec![
        (
            Error::FileNotFound(None, "/a/b.png".into(), "That file doesn't exist!".into()),
            "The file path given '/a/b.png' does not exist! That file doesn't exist!",
        ),
        (Error::NoFileSelected(None), "No file was selected in the file dialogue!"),
        (
            Error::FailedToApplyOptimizations(None, "boom".into()),
            "Failed to apply optimizations to this image! Roseate will run slower than usual and use a lot more memory possibly leading to system crashes. BEWARE! \n\nTechnical Reason: boom",
        ),
        (
            Error::FailedToInitImage(None, "/a/b.png".into(), "why".into()),
            "Failed to initialize the image (b.png)! Reason: why",
        ),
        (
            Error::FailedToLoadImage(None, "why".into()),
            "Failed to load that image! The image might be corrupted. Reason: why",
        ),
        (Error::FailedToLoadTexture(None), "Egui failed to load image texture! Possible image corruption."),
        (
            Error::FailedToConvertImageToPixels(None, "r".into()),
            "Failed to transform image to pixels! The image may be corrupted. Technical Reason: r",
        ),
        (Error::ImageFormatNotSupported(None, "Bmp".into()), "The image format 'Bmp' is not supported!"),
        (Error::MonitorNotFound(None), "For some reason we couldn't detect your monitor."),
        (Error::FailedToEncodeImage(None, "r".into()), "Image failed to encode! \n\nTechnical Reason: r"),
        (Error::FailedToDecodeImage(None, "r".into()), "Image failed to decode! \n\nTechnical Reason: r"),
        (
            Error::OSDirNotFound(None, "cache".into()),
            "No 'cache' directory was found for your Operating System!? This should not happen, please report this!",
        ),
        (Error::FailedToCreatePath(None, "/x".into()), "Failed to create path at '/x'!"),
        (Error::FailedToOpenFile(None, "/x/y".into()), "Failed to open file at '/x/y'!"),
    ];
    for (error, message) in cases {
        assert_eq!(error.human_message(), message);
        assert_eq!(error.checked_human_message(), Some(message.to_string()));
    }
}

#[test]
fn init_failure_without_a_file_name_has_no_message() {
    let error = Error::FailedToInitImage(None, "/".into(), "why".into());
    assert_eq!(error.checked_human_message(), None);
    let error = Error::FailedToInitImage(None, "pictures/..".into(), "why".into());
    assert_eq!(error.checked_human_message(), None);
}

#[test]
fn actual_errors() {
    assert_eq!(Error::MonitorNotFound(Some("x".into())).actual_error(), Some("x".to_string()));
    assert_eq!(Error::FailedToOpenFile(None, "p".into()).actual_error(), None);
    assert_eq!(
        Error::FileNotFound(Some("gone".into()), "p".into(), "d".into()).actual_error(),
        Some("gone".to_string())
    );
}

#[test]
fn core_error_messages() {
    let cases = vec![
        (
            CoreError::DecodingFailure { error: "e".into() },
            "Decoder failed to decode the image! The image could be corrupted.",
        ),
        (CoreError::DecoderInitFailure { error: "e".into() }, "Failed to a initialize decoder!"),
        (CoreError::DecoderRetrieveExifFailure { error: "e".into() }, "Decoder failed to retrieve image exif chunk!"),
        (
            CoreError::DecoderAnimationCheckFailure { error: "e".into() },
            "The backend's decoder unexpectedly failed to check if the image was animated!",
        ),
        (
            CoreError::DecoderImageFormatNotSupported { image_format: "PNG".into(), backend: "image-rs".into() },
            "The 'PNG' backend does not support the 'image-rs' image format!",
        ),
        (
            CoreError::ImageHeaderReadFailure { stage: "S".into(), error: None },
            "We failed to read the image's header, the image is very likely corrupted! Try another image. Stage: S",
        ),
        (CoreError::ImageFormatNotSupported { image_format: "Jxl".into() }, "The image format 'Jxl' is not supported!"),
        (
            CoreError::ExifReaderImageMetadataParseFailure { error: "e".into() },
            "Exif reader failed to parse image exif tags!",
        ),
        (CoreError::ImageEncodeFailure { reason: "r".into() }, "Failed to encode image, the image may be corrupted!"),
        (
            CoreError::AnimatedImageHasNoFrames,
            "This animated image looks to be corrupted, it has no frames! Are you sure this image is sound? Perhaps try another image.",
        ),
    ];
    for (error, message) in cases {
        assert_eq!(error.message(), message);
    }
}

#[test]
fn loading_status_starts_empty() {
    assert!(Loading::default().message.is_none());
    let loading = Loading { message: Some("Opening file...".into()) };
    assert_eq!(loading.clone().message, Some("Opening file...".to_string()));
}

#[test]
fn notification_messages_and_details() {
    let content: StringOrError = Error::FailedToLoadImage(Some("io".into()), "bad".into()).into();
    assert_eq!(content.message(), "Failed to load that image! The image might be corrupted. Reason: bad");
    assert_eq!(content.full_error_message(), "io");
    assert_eq!(
        content.log_text(),
        "Failed to load that image! The image might be corrupted. Reason: bad Additional Detail: io"
    );
    let content: StringOrError = Error::NoFileSelected(None).into();
    assert_eq!(content.full_error_message(), "");
    let content: StringOrError = "hello".to_string().into();
    assert_eq!(content.message(), "hello");
    assert_eq!(content.full_error_message(), "hello");
    assert_eq!(content.toast_text(), "hello");
}

#[test]
fn notification_text_is_wrapped_to_75_columns() {
    let long = "SVG files are experimental and broken! Expect many bugs, inconstancies and performance / memory issues.";
    let content: StringOrError = long.to_string().into();
    let text = content.toast_text();
    assert_eq!(text, textwrap::wrap(long, 75).join("\n"));
    assert_eq!(
        text,
        "SVG files are experimental and broken! Expect many bugs, inconstancies and\nperformance / memory issues."
    );
    assert!(text.lines().all(|line| line.len() <= 75));
    assert_eq!(content.checked_toast_text(), Some(text));
    let unshowable: StringOrError = Error::FailedToInitImage(None, "/".into(), "r".into()).into();
    assert_eq!(unshowable.checked_toast_text(), None);
}

#[test]
fn first_generation_notification_content() {
    let content = ToastContent::from_error(&Error::MonitorNotFound(None));
    match &content {
        ToastContent::String(message) => assert_eq!(message, "For some reason we couldn't detect your monitor."),
        ToastContent::Error(_) => panic!("errors become plain messages"),
    }
    assert_eq!(content.message(), "For some reason we couldn't detect your monitor.");
    let content: ToastContent = "plain".to_string().into();
    assert_eq!(content.message(), "plain");
}
