use roseate::error::Error as ViewerError;
use roseate::image::image_formats::{image_format_from_header, ImageFormat as ViewerFormat};
use roseate::roseate_core::error::Error;
use roseate::roseate_core::format::{
    determine_image_format_and_size_from_header, format_and_size_from_header_results, format_from_kind,
    image_format_extensions, HeifCompression, ImageFormat, ImageTypeKind,
};

const PNG_123_BY_321: [u8; 32] = [
    0x89, 0x50, 0x4E, 0x47, 0x0D, 0x0A, 0x1A, 0x0A, 0x00, 0x00, 0x00, 0x0D, 0x49, 0x48, 0x44, 0x52,
    0x00, 0x00, 0x00, 0x7B, 0x00, 0x00, 0x01, 0x41, 0x08, 0x06, 0x00, 0x00, 0x00, 0x9A, 0x38, 0xC4,
];

const GIF_10_BY_20: [u8; 12] = *b"GIF89a\x0A\x00\x14\x00\x00\x00";

const BMP_HEADER: [u8; 26] = [
    0x42, 0x4D, 0, 0, 0, 0, 0, 0, 0, 0, 0, 0, 0, 0, 0, 0, 0, 0, 0x05, 0, 0, 0, 0x07, 0, 0, 0,
];

#[test]
fn png_header_gives_format_and_size() {
    match determine_image_format_and_size_from_header(&PNG_123_BY_321) {
        Ok((format, size)) => {
            assert_eq!(format, ImageFormat::Png);
            assert_eq!(size, (123, 321));
        },
        Err(error) => panic!("unexpected error: {:?}", error),
    }
}

#[test]
fn gif_header_gives_format_and_size() {
    match determine_image_format_and_size_from_header(&GIF_10_BY_20) {
        Ok((format, size)) => {
            assert_eq!(format, ImageFormat::Gif);
            assert_eq!(size, (10, 20));
        },
        Err(error) => panic!("unexpected error: {:?}", error),
    }
}

#[test]
fn bmp_header_gives_format_and_size() {
    match determine_image_format_and_size_from_header(&BMP_HEADER) {
        Ok((format, size)) => {
            assert_eq!(format, ImageFormat::Bmp);
            assert_eq!(size, (5, 7));
        },
        Err(error) => panic!("unexpected error: {:?}", error),
    }
}

#[test]
fn unknown_header_fails_at_the_format_stage() {
    match determine_image_format_and_size_from_header(&[0u8; 16]) {
        Err(Error::ImageHeaderReadFailure { stage, error }) => {
            assert_eq!(stage, "Failed to determine format of image!");
            assert_eq!(error, Some("Could not decode image".to_string()));
        },
        other => panic!("unexpected result: {:?}", other.map(|_| ())),
    }
}

#[test]
fn truncated_header_fails_at_the_size_stage() {
    match determine_image_format_and_size_from_header(&PNG_123_BY_321[..16]) {
        Err(Error::ImageHeaderReadFailure { stage, error }) => {
            assert_eq!(stage, "Failed to retrieve image dimensions!");
            assert!(error.is_some());
        },
        other => panic!("unexpected result: {:?}", other.map(|_| ())),
    }
}

#[test]
fn unsupported_type_is_named() {
    let jxl = [0xFFu8, 0x0A, 0, 0, 0, 0, 0, 0, 0, 0, 0, 0];
    match determine_image_format_and_size_from_header(&jxl) {
        Err(Error::ImageFormatNotSupported { image_format }) => assert_eq!(image_format, "Jxl"),
        other => panic!("unexpected result: {:?}", other.map(|_| ())),
    }
}

#[test]
fn results_turn_into_format_and_size() {
    let result = format_and_size_from_header_results(
        Ok((ImageTypeKind::Heif(HeifCompression::Av1), "Heif(Av1)".to_string())),
        Ok((70_000, 5)),
    );
    assert_eq!(result.unwrap(), (ImageFormat::Avif, (70_000, 5)));
    let result = format_and_size_from_header_results(
        Ok((ImageTypeKind::Heif(HeifCompression::Hevc), "Heif(Hevc)".to_string())),
        Ok((1, 1)),
    );
    match result {
        Err(Error::ImageFormatNotSupported { image_format }) => assert_eq!(image_format, "Heif(Hevc)"),
        other => panic!("unexpected result: {:?}", other.map(|_| ())),
    }
    // Sizes beyond `u32` are cut to their low 32 bits.
    let result = format_and_size_from_header_results(Ok((ImageTypeKind::Png, "Png".to_string())), Ok((1usize << 32 | 3, 4)));
    assert_eq!(result.unwrap(), (ImageFormat::Png, (3, 4)));
}

#[test]
fn core_format_kinds() {
    assert_eq!(format_from_kind(ImageTypeKind::Qoi), Some(ImageFormat::Qoi));
    assert_eq!(format_from_kind(ImageTypeKind::Ico), Some(ImageFormat::Ico));
    assert_eq!(format_from_kind(ImageTypeKind::Tiff), Some(ImageFormat::Tiff));
    assert_eq!(format_from_kind(ImageTypeKind::Webp), Some(ImageFormat::Webp));
    assert_eq!(format_from_kind(ImageTypeKind::Jpeg), Some(ImageFormat::Jpeg));
    assert_eq!(format_from_kind(ImageTypeKind::Jxl), None);
    assert_eq!(format_from_kind(ImageTypeKind::Other), None);
}

#[test]
fn core_format_descriptions() {
    assert_eq!(ImageFormat::Png.description(), "PNG (Portable Network Graphics)");
    assert_eq!(ImageFormat::Avif.description(), "AVIF (AV1 Image File Format)");
    assert_eq!(ImageFormat::Ico.description(), "ICO (Microsoft Icon)");
    assert_eq!(image_format_extensions().len(), 12);
    assert_eq!(image_format_extensions()[11], "ico");
    assert_eq!(image_format_extensions()[2], "jpeg");
}

#[test]
fn viewer_formats_from_headers() {
    let path = "/pictures/cat.png".to_string();
    assert_eq!(image_format_from_header(&path, &PNG_123_BY_321[..16]).unwrap(), ViewerFormat::Png);
    assert_eq!(image_format_from_header(&path, &GIF_10_BY_20).unwrap(), ViewerFormat::Gif);
    let jxl = [0xFFu8, 0x0A, 0, 0, 0, 0, 0, 0, 0, 0, 0, 0];
    assert_eq!(image_format_from_header(&path, &jxl).unwrap(), ViewerFormat::Jpeg);
}

#[test]
fn viewer_refuses_formats_it_does_not_open() {
    let path = "/pictures/cat.bmp".to_string();
    match image_format_from_header(&path, &BMP_HEADER) {
        Err(ViewerError::FailedToInitImage(Some(actual), error_path, reason)) => {
            assert_eq!(actual, "The image format 'Bmp' is not supported!");
            assert_eq!(reason, actual);
            assert_eq!(error_path, path);
        },
        _ => panic!("expected an initialization failure"),
    }
    match image_format_from_header(&path, &[0u8; 16]) {
        Err(ViewerError::FailedToInitImage(Some(actual), _, reason)) => {
            assert_eq!(actual, "Could not decode image");
            assert_eq!(reason, "Failed to retrieve image type!");
        },
        _ => panic!("expected an initialization failure"),
    }
}

#[test]
fn viewer_format_descriptions() {
    assert_eq!(ViewerFormat::Webp.description(), "WEBP (Web Picture)");
    assert_eq!(ViewerFormat::Svg.description(), "SVG (Scalable Vector Graphics)");
    assert_eq!(
        ViewerFormat::try_from_image_type(ImageTypeKind::Jxl, "Jxl".to_string()).unwrap(),
        ViewerFormat::Jpeg
    );
}
