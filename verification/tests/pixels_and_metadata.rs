use roseate::roseate_core::colour_type::{ColorTypeKind, ImageColourType};
use roseate::roseate_core::error::Error;
use roseate::roseate_core::metadata::{trim_quotes_text, text_before_first_dot, ExifFieldTexts, ImageMetadata};
use roseate::roseate_core::quantization::squish_u16_pixels_to_u8;

#[test]
fn squishing_keeps_the_high_byte() {
    assert_eq!(squish_u16_pixels_to_u8(&[0, 255, 256, 0x1234, 0xFFFF]), vec![0, 0, 1, 0x12, 0xFF]);
    assert_eq!(squish_u16_pixels_to_u8(&[]), Vec::<u8>::new());
}

#[test]
fn colour_types_from_decoder_colour_types() {
    assert_eq!(ImageColourType::try_from(ColorTypeKind::L8).unwrap(), ImageColourType::Grey8);
    assert_eq!(ImageColourType::try_from(ColorTypeKind::La16).unwrap(), ImageColourType::GreyA16);
    assert_eq!(ImageColourType::try_from(ColorTypeKind::Rgb32F).unwrap(), ImageColourType::Rgb32F);
    assert_eq!(ImageColourType::try_from(ColorTypeKind::Rgba8).unwrap(), ImageColourType::Rgba8);
    assert!(matches!(ImageColourType::try_from(ColorTypeKind::Other), Err(Error::UnsupportedColourType)));
}

#[test]
fn colour_type_descriptions() {
    assert_eq!(ImageColourType::Rgba8.description(), "RGBA (8-bit)");
    assert_eq!(ImageColourType::Rgb32F.description(), "RGB (32-bit)");
    assert_eq!(ImageColourType::GreyA32F.description(), "Greyscale + Alpha (32-bit float)");
}

#[test]
fn quotes_are_trimmed_from_both_ends() {
    assert_eq!(trim_quotes_text("\"Canon\""), "Canon");
    assert_eq!(trim_quotes_text("\"\"a\"b\"\""), "a\"b");
    assert_eq!(trim_quotes_text("\"\"\""), "");
    assert_eq!(trim_quotes_text("plain"), "plain");
    assert_eq!(trim_quotes_text(""), "");
}

#[test]
fn text_before_the_first_dot() {
    assert_eq!(text_before_first_dot("1.5 s"), Some("1".to_string()));
    assert_eq!(text_before_first_dot("12.3.4"), Some("12".to_string()));
    assert_eq!(text_before_first_dot(".5"), Some("".to_string()));
    assert_eq!(text_before_first_dot("1/250 s"), None);
}

fn no_fields() -> ExifFieldTexts {
    ExifFieldTexts {
        model: None,
        make: None,
        exposure_time: None,
        gps_longitude: None,
        gps_latitude: None,
        gps_altitude: None,
        photographic_sensitivity: None,
        aperture_value: None,
        focal_length: None,
        date_time_original: None,
    }
}

#[test]
fn metadata_from_fields() {
    let mut fields = no_fields();
    fields.model = Some("\"D750\"".into());
    fields.make = Some("\"Nikon\"".into());
    fields.exposure_time = Some("0.004 s".into());
    fields.photographic_sensitivity = Some("100".into());
    fields.gps_altitude = Some("\"12 m\"".into());
    let metadata = ImageMetadata::from_exif_fields(&fields);
    assert_eq!(metadata.model, Some("D750 (Nikon)".to_string()));
    assert_eq!(metadata.exposure_time, Some("0".to_string()));
    assert_eq!(metadata.iso, Some("100".to_string()));
    assert_eq!(metadata.location.altitude, Some("12 m".to_string()));
    assert_eq!(metadata.aperture, None);
    assert_eq!(metadata.location.longitude, None);
}

#[test]
fn model_without_maker() {
    let mut fields = no_fields();
    fields.model = Some("\"D750\"".into());
    fields.exposure_time = Some("1/250 s".into());
    let metadata = ImageMetadata::from_exif_fields(&fields);
    assert_eq!(metadata.model, Some("D750".to_string()));
    assert_eq!(metadata.exposure_time, None);
    let defaults = ImageMetadata::default();
    assert!(defaults.model.is_none() && defaults.location.latitude.is_none());
}

/// A big-endian TIFF chunk whose primary image has a maker ("Nikon") and a model ("D750").
fn exif_chunk_with_maker_and_model() -> Vec<u8> {
    let mut chunk = vec![0x4D, 0x4D, 0x00, 0x2A, 0x00, 0x00, 0x00, 0x08, 0x00, 0x02];
    chunk.extend_from_slice(&[0x01, 0x0F, 0x00, 0x02, 0x00, 0x00, 0x00, 0x06, 0x00, 0x00, 0x00, 0x26]);
    chunk.extend_from_slice(&[0x01, 0x10, 0x00, 0x02, 0x00, 0x00, 0x00, 0x05, 0x00, 0x00, 0x00, 0x2C]);
    chunk.extend_from_slice(&[0x00, 0x00, 0x00, 0x00]);
    chunk.extend_from_slice(b"Nikon\0D750\0");
    chunk
}

#[test]
fn metadata_read_from_an_exif_chunk() {
    let metadata = ImageMetadata::new(exif_chunk_with_maker_and_model()).expect("chunk parses");
    assert_eq!(metadata.model, Some("D750 (Nikon)".to_string()));
    assert_eq!(metadata.iso, None);
}

#[test]
fn unreadable_exif_chunk_is_an_error() {
    match ImageMetadata::new(vec![1, 2, 3]) {
        Err(Error::ExifReaderImageMetadataParseFailure { error }) => assert!(!error.is_empty()),
        _ => panic!("expected a parse failure"),
    }
}
