use std::io::Cursor;

use image::codecs::gif::GifEncoder;
use image::{Delay, Frame, ImageFormat as RsFormat, Rgb, RgbImage, Rgba, RgbaImage};
use roseate::error::Error as ViewerError;
use roseate::image::decode::{decode_image_bytes, resize_image_pixels, DecodedImage as ViewerDecoded, ImageColourType as ViewerColour};
use roseate::image::image_formats::ImageFormat as ViewerFormat;
use roseate::roseate_core::colour_type::ImageColourType;
use roseate::roseate_core::decoded_image::{DecodedImage, DecodedImageContent, FrameDelay};
use roseate::roseate_core::error::Error;
use roseate::roseate_core::format::ImageFormat;
use roseate::roseate_core::image_rs::{apply_modifications, modified_size, modifications_fit, ImageRSBackend};
use roseate::roseate_core::metadata::ImageMetadata;
use roseate::roseate_core::modifications::ImageModification;
use roseate::roseate_core::reader::{ImageReader, ImageReaderData};

fn png_bytes(width: u32, height: u32) -> Vec<u8> {
    let image = RgbImage::from_fn(width, height, |x, y| Rgb([x as u8 * 40, y as u8 * 40, 200]));
    let mut bytes = Vec::new();
    image.write_to(&mut Cursor::new(&mut bytes), RsFormat::Png).unwrap();
    bytes
}

fn gif_bytes() -> Vec<u8> {
    let mut bytes = Vec::new();
    {
        let mut encoder = GifEncoder::new(&mut bytes);
        for shade in [0u8, 255] {
            let frame = Frame::from_parts(
                RgbaImage::from_pixel(4, 2, Rgba([shade, 0, 0, 255])),
                0,
                0,
                Delay::from_numer_denom_ms(100, 1),
            );
            encoder.encode_frame(frame).unwrap();
        }
    }
    bytes
}

fn backend(bytes: Vec<u8>, format: ImageFormat) -> Result<ImageRSBackend, Error> {
    ImageRSBackend::from_reader(ImageReader { data: ImageReaderData::EncodedImage(bytes), image_format: format })
}

#[test]
fn png_decodes_to_its_pixels() {
    let decoded = backend(png_bytes(3, 2), ImageFormat::Png).unwrap().decode().unwrap();
    assert_eq!(decoded.size, (3, 2));
    assert_eq!(decoded.colour_type, ImageColourType::Rgb8);
    assert_eq!(decoded.info.format, ImageFormat::Png);
    match decoded.content {
        DecodedImageContent::Static(pixels) => {
            assert_eq!(pixels.len(), 18);
            assert_eq!(&pixels[3..6], &[40, 0, 200]);
        },
        _ => panic!("expected a still image"),
    }
    assert!(decoded.info.metadata.model.is_none());
}

#[test]
fn png_is_resized_only_when_asked() {
    let mut png = backend(png_bytes(8, 6), ImageFormat::Png).unwrap();
    png.modify(vec![ImageModification::Resize(4, 3), ImageModification::Resize(4, 3)]);
    let decoded = png.decode().unwrap();
    assert_eq!(decoded.size, (4, 3));
    assert_eq!(decoded.info.size, (4, 3));
    match decoded.content {
        DecodedImageContent::Static(pixels) => assert_eq!(pixels.len(), 4 * 3 * 3),
        _ => panic!("expected a still image"),
    }
}

#[test]
fn gif_decodes_every_frame() {
    let mut gif = backend(gif_bytes(), ImageFormat::Gif).unwrap();
    gif.modify(vec![ImageModification::Resize(2, 1)]);
    let decoded = gif.checked_decode().unwrap().unwrap();
    assert_eq!(decoded.colour_type, ImageColourType::Rgba8);
    assert_eq!(decoded.size, (2, 1));
    match decoded.content {
        DecodedImageContent::Animated(frames) => {
            assert_eq!(frames.len(), 2);
            assert_eq!(frames[0].0.len(), 2 * 1 * 4);
            assert_eq!(frames[1].0[0], 255);
            assert_eq!(frames[0].1, FrameDelay { numerator: 100, denominator: 1 });
        },
        _ => panic!("expected an animation"),
    }
}

#[test]
fn decoder_errors_are_mapped() {
    assert!(matches!(backend(vec![1, 2, 3], ImageFormat::Png), Err(Error::DecoderInitFailure { .. })));
    match backend(png_bytes(1, 1), ImageFormat::Avif) {
        Err(Error::DecoderImageFormatNotSupported { image_format, backend }) => {
            assert_eq!(image_format, "AVIF (AV1 Image File Format)");
            assert_eq!(backend, "image-rs");
        },
        _ => panic!("expected the unsupported format error"),
    }
}

#[test]
fn decoded_images_are_modified_again() {
    let pixels: Vec<u8> = (0..2 * 2 * 3).map(|value| value as u8).collect();
    let image = DecodedImage::new(
        (2, 2),
        ImageFormat::Png,
        ImageColourType::Rgb8,
        ImageMetadata::default(),
        DecodedImageContent::Static(pixels),
    );
    let mut buffer = ImageRSBackend::from_reader(ImageReader { data: ImageReaderData::DecodedImage(image), image_format: ImageFormat::Png }).unwrap();
    buffer.modify(vec![ImageModification::Resize(1, 1)]);
    let decoded = buffer.decode().unwrap();
    assert_eq!(decoded.size, (1, 1));
    match decoded.content {
        DecodedImageContent::Static(pixels) => assert_eq!(pixels.len(), 3),
        _ => panic!("expected a still image"),
    }
}

#[test]
fn modifications_are_applied_in_turn() {
    let (pixels, size) = apply_modifications(
        vec![7; 4 * 4],
        (4, 4),
        ImageColourType::Grey8,
        &[ImageModification::Resize(2, 2), ImageModification::Resize(1, 3)],
    );
    assert_eq!(size, (1, 3));
    assert_eq!(pixels.len(), 3);
    assert!(modifications_fit((4, 4), &[ImageModification::Resize(2, 2)]));
    assert!(!modifications_fit((u32::MAX, 4), &[ImageModification::Resize(u32::MAX, u32::MAX)]));
}

#[test]
fn viewer_decodes_with_image_rs() {
    match decode_image_bytes(&png_bytes(2, 3), ViewerFormat::Png).unwrap() {
        ViewerDecoded::ImageRS(pixels, size, colour) => {
            assert_eq!(size, (2, 3));
            assert_eq!(colour, ViewerColour::RGB);
            assert_eq!(pixels.len(), 18);
        },
        ViewerDecoded::Egui => panic!("expected pixels"),
    }
    assert!(matches!(decode_image_bytes(&[0, 1], ViewerFormat::Svg), Ok(ViewerDecoded::Egui)));
    assert!(matches!(decode_image_bytes(&[0, 1], ViewerFormat::Gif), Ok(ViewerDecoded::Egui)));
    match decode_image_bytes(&[0, 1, 2], ViewerFormat::Png) {
        Err(ViewerError::FailedToDecodeImage(Some(actual), reason)) => {
            assert!(!actual.is_empty());
            assert_eq!(reason, "We failed to make a decoder for this image. The image may be corrupted.");
        },
        _ => panic!("expected a decode failure"),
    }
}

#[test]
fn decoded_animations_take_their_resized_size() {
    let delay = FrameDelay { numerator: 100, denominator: 1 };
    let image = DecodedImage::new(
        (2, 2),
        ImageFormat::Gif,
        ImageColourType::Rgba8,
        ImageMetadata::default(),
        DecodedImageContent::Animated(vec![(vec![0u8; 16], delay)]),
    );
    let mut buffer = ImageRSBackend::from_reader(ImageReader::new(image, ImageFormat::Gif)).unwrap();
    buffer.modify(vec![ImageModification::Resize(1, 1)]);
    let decoded = buffer.decode().unwrap();
    assert_eq!(decoded.size, (1, 1));
    assert_eq!(decoded.info.size, (1, 1));
    match decoded.content {
        DecodedImageContent::Animated(frames) => {
            assert_eq!(frames.len(), 1);
            assert_eq!(frames[0].0, vec![0u8; 4]);
            assert_eq!(frames[0].1, delay);
        },
        _ => panic!("expected an animation"),
    }
}

#[test]
fn size_after_modifications_is_the_last_target() {
    assert_eq!(modified_size((5, 5), &[]), (5, 5));
    assert_eq!(modified_size((5, 5), &[ImageModification::Resize(3, 2), ImageModification::Resize(7, 1)]), (7, 1));
}

#[test]
fn viewer_pixels_are_resized() {
    let (pixels, size) = resize_image_pixels(vec![9; 4 * 2 * 3], (4, 2), ViewerColour::RGB, (2, 1));
    assert_eq!(size, (2, 1));
    assert_eq!(pixels, vec![9; 2 * 3]);
}
